//! The DDC/CI protocol for controlling displays over I2C: request encoding,
//! packet framing and checksums, reply validation, the delays the protocol
//! requires between commands, and multi-packet transfers. A handle decides
//! every bus step of an exchange; the caller performs it on the bus.

use vstd::prelude::*;

pub mod commands;
pub mod delay;
pub mod edid;
pub mod enumerate;
pub mod error;
pub mod i2c_ddc;
pub mod multipacket;
pub mod packet;

pub use delay::Delay;
pub use commands::{Command, CommandResult, TimingMessage, VcpValue};
pub use error::{Error, ErrorCode};
pub use i2c_ddc::I2cDdc;

verus! {

/// A VCP feature code.
pub type FeatureCode = u8;

/// EDID EEPROM I2C address.
pub const I2C_ADDRESS_EDID: u16 = 0x50;

/// E-DDC EDID segment register I2C address.
pub const I2C_ADDRESS_EDID_SEGMENT: u16 = 0x30;

/// DDC/CI command and control I2C address.
pub const I2C_ADDRESS_DDC_CI: u16 = 0x37;

/// DDC/CI sub-address that starts every request packet.
pub const SUB_ADDRESS_DDC_CI: u8 = 0x51;

/// Milliseconds to wait after a failed command before the next one.
pub const DELAY_COMMAND_FAILED_MS: u64 = 40;

} // verus!
