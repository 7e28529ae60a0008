use vstd::prelude::*;

verus! {

/// Failures of the DDC/CI protocol layer, distinguishable by cause.
#[derive(Clone, Copy, Debug, PartialEq, Eq, Structural, PartialOrd, Ord, Hash)]
pub enum ErrorCode {
    /// A multi-packet reply carried an offset other than the one requested.
    InvalidOffset,
    /// A packet or payload length lies outside the bounds the protocol allows.
    InvalidLength,
    /// The checksum of a reply does not match its contents.
    InvalidChecksum,
    /// A reply starts with an opcode other than the one expected.
    InvalidOpcode,
    /// A reply is malformed in some other way.
    InvalidData,
    /// The display reported that it does not support the requested VCP feature.
    UnsupportedVcp,
    /// The display answered a VCP request with an undefined result code.
    InvalidVcpResult(u8),
}

impl ErrorCode {
    /// A short text saying what went wrong.
    pub fn description(&self) -> (r: &'static str)
        ensures
            r@ == match self {
                ErrorCode::InvalidOffset => "invalid offset returned from DDC/CI"@,
                ErrorCode::InvalidLength => "invalid DDC/CI length"@,
                ErrorCode::InvalidChecksum => "DDC/CI checksum mismatch"@,
                ErrorCode::InvalidOpcode => "DDC/CI VCP opcode mismatch"@,
                ErrorCode::InvalidData => "invalid DDC/CI data"@,
                ErrorCode::UnsupportedVcp => "unsupported VCP code"@,
                ErrorCode::InvalidVcpResult(_) => "unrecognized VCP result code"@,
            },
    {
        match self {
            ErrorCode::InvalidOffset => "invalid offset returned from DDC/CI",
            ErrorCode::InvalidLength => "invalid DDC/CI length",
            ErrorCode::InvalidChecksum => "DDC/CI checksum mismatch",
            ErrorCode::InvalidOpcode => "DDC/CI VCP opcode mismatch",
            ErrorCode::InvalidData => "invalid DDC/CI data",
            ErrorCode::UnsupportedVcp => "unsupported VCP code",
            ErrorCode::InvalidVcpResult(_) => "unrecognized VCP result code",
        }
    }
}

/// An error of a DDC/CI exchange: either the bus failed, or the protocol did.
#[derive(Clone, Debug)]
pub enum Error<I> {
    /// The underlying I2C transport failed.
    I2c(I),
    /// The DDC/CI protocol failed, or the transmission was corrupted.
    Ddc(ErrorCode),
}

impl<I> From<ErrorCode> for Error<I> {
    fn from(e: ErrorCode) -> (r: Self)
        ensures
            r == Error::<I>::Ddc(e),
    {
        Error::Ddc(e)
    }
}

impl<I> vstd::std_specs::convert::FromSpecImpl<ErrorCode> for Error<I> {
    open spec fn obeys_from_spec() -> bool {
        true
    }

    open spec fn from_spec(e: ErrorCode) -> Self {
        Error::Ddc(e)
    }
}

} // verus!
