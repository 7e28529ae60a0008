use vstd::prelude::*;
use crate::commands::{result_view, Command, CommandResult, GetVcpFeature, VcpValue};
use crate::delay::{remaining_after, Delay, DelayView};
use crate::error::ErrorCode;
use crate::packet::{decode_response, encode_command, spec_frame, spec_unframe, MAX_PACKET_DATA};
use crate::{DELAY_COMMAND_FAILED_MS, FeatureCode, I2C_ADDRESS_DDC_CI};

verus! {

/// Where a DDC/CI exchange stands.
#[derive(Clone, Copy, Debug, PartialEq, Eq, Structural)]
pub enum Phase {
    /// No exchange is in progress.
    Idle,
    /// The DDC/CI address is being selected.
    Addressing,
    /// The delay owed to the previous command is being waited out.
    Waiting,
    /// The request packet is being written.
    Sending,
    /// The display is given time to prepare its reply.
    WaitingResponse,
    /// The reply is being read.
    Reading,
}

/// What the bus must do next.
#[derive(Debug)]
pub enum Action {
    /// Select this slave address.
    SelectAddress(u16),
    /// Sleep for this many milliseconds.
    Sleep(u64),
    /// Write these bytes.
    Write(Vec<u8>),
    /// Read into a buffer of this many bytes.
    Read(usize),
    /// The exchange is over: the reply payload, or why the reply was refused.
    Complete(Result<Vec<u8>, ErrorCode>),
    /// The exchange was given up because the transport failed, or no
    /// exchange was in progress.
    Abort,
}

/// What the bus reports about the last action.
#[derive(Debug)]
pub enum Event {
    /// The action succeeded.
    Done,
    /// The read finished: the buffer, and how many bytes the transport
    /// reported.
    Received(Vec<u8>, usize),
    /// The transport failed.
    Failed,
}

/// The bytes an event hands over, and the count the transport reported.
pub open spec fn received(event: Event) -> (Seq<u8>, int) {
    match event {
        Event::Received(buf, n) => (buf@, n as int),
        _ => (Seq::empty(), 0),
    }
}

/// A reply payload result as sequences.
pub open spec fn payload_view(r: Result<Vec<u8>, ErrorCode>) -> Result<Seq<u8>, ErrorCode> {
    match r {
        Ok(p) => Ok(p@),
        Err(e) => Err(e),
    }
}

/// A delay running for `ms` milliseconds.
pub open spec fn armed_for(ms: u64) -> DelayView {
    DelayView { armed: true, delay_ms: ms }
}

/// Bytes read for the reply of `C`: nothing when no reply is expected.
pub open spec fn spec_read_len<C: Command>() -> usize {
    if <C::Ok as CommandResult>::MAX_LEN == 0 {
        0
    } else {
        (<C::Ok as CommandResult>::MAX_LEN + 3) as usize
    }
}

/// The state of a handle apart from its bus.
pub struct DdcView {
    pub phase: Phase,
    pub delay: DelayView,
    /// Packet of the exchange in progress.
    pub packet: Seq<u8>,
    /// Bytes to read for its reply; none when no reply is expected.
    pub read_len: usize,
    /// Milliseconds between the write and the read.
    pub response_delay_ms: u64,
    /// Milliseconds owed after the command when it succeeds.
    pub command_delay_ms: u64,
}

/// A DDC/CI handle on an I2C bus `I`. It decides every step of an exchange
/// and keeps the delays the protocol requires between commands; the caller
/// carries out each `Action` on the bus and reports the `Event`.
pub struct I2cDdc<I> {
    inner: I,
    delay: Delay,
    phase: Phase,
    packet: Vec<u8>,
    read_len: usize,
    response_delay_ms: u64,
    command_delay_ms: u64,
}

impl<I> View for I2cDdc<I> {
    type V = DdcView;

    closed spec fn view(&self) -> DdcView {
        DdcView {
            phase: self.phase,
            delay: self.delay@,
            packet: self.packet@,
            read_len: self.read_len,
            response_delay_ms: self.response_delay_ms,
            command_delay_ms: self.command_delay_ms,
        }
    }
}

impl<I> I2cDdc<I> {
    /// The bus the handle owns.
    pub closed spec fn bus(&self) -> I {
        self.inner
    }

    /// Creates a handle on an open bus, owing no delay.
    pub fn new(i2c: I) -> (r: Self)
        ensures
            r.bus() == i2c,
            r@.phase == Phase::Idle,
            r@.delay == (DelayView { armed: false, delay_ms: 0 }),
    {
        I2cDdc {
            inner: i2c,
            delay: Delay::default(),
            phase: Phase::Idle,
            packet: Vec::new(),
            read_len: 0,
            response_delay_ms: 0,
            command_delay_ms: 0,
        }
    }

    /// Gives up the handle and returns the bus.
    pub fn into_inner(self) -> (r: I)
        ensures
            r == self.bus(),
    {
        self.inner
    }

    /// Borrows the bus.
    pub fn inner_ref(&self) -> (r: &I)
        ensures
            *r == self.bus(),
    {
        &self.inner
    }

    /// Borrows the bus mutably.
    pub fn inner_mut(&mut self) -> (r: &mut I)
        ensures
            *r == old(self).bus(),
            final(self).bus() == *final(r),
            final(self)@ == old(self)@,
    {
        &mut self.inner
    }

    /// The delay owed before the next command.
    pub fn delay(&self) -> (r: &Delay)
        ensures
            r@ == self@.delay,
    {
        &self.delay
    }

    /// Replaces the delay that must pass before the next command.
    pub fn set_sleep_delay(&mut self, delay: Delay)
        ensures
            final(self)@ == (DdcView { delay: delay@, ..old(self)@ }),
            final(self).bus() == old(self).bus(),
    {
        self.delay = delay;
    }

    /// Stops the delay owed to earlier commands and returns the milliseconds
    /// the caller must still sleep before the bus may be used.
    pub fn sleep(&mut self) -> (r: u64)
        ensures
            final(self)@ == (DdcView {
                delay: DelayView { armed: false, delay_ms: old(self)@.delay.delay_ms },
                ..old(self)@
            }),
            final(self).bus() == old(self).bus(),
            r <= old(self)@.delay.delay_ms,
            !old(self)@.delay.armed ==> r == 0,
            old(self)@.delay.armed ==> exists|e: u128| r == remaining_after(old(self)@.delay.delay_ms, e),
    {
        self.delay.take_remaining()
    }

    /// Starts an exchange for `command`: the request is encoded and framed,
    /// and the first action is to select the DDC/CI address. A request that
    /// does not fit in a packet is refused with `InvalidLength` and nothing
    /// changes.
    pub fn begin<C: Command>(&mut self, command: &C) -> (r: Result<Action, ErrorCode>)
        ensures
            final(self).bus() == old(self).bus(),
            command.spec_fits() ==> {
                &&& r == Ok::<Action, ErrorCode>(Action::SelectAddress(I2C_ADDRESS_DDC_CI))
                &&& final(self)@ == (DdcView {
                    phase: Phase::Addressing,
                    delay: old(self)@.delay,
                    packet: spec_frame(command.spec_encoding()),
                    read_len: spec_read_len::<C>(),
                    response_delay_ms: C::DELAY_RESPONSE_MS,
                    command_delay_ms: C::DELAY_COMMAND_MS,
                })
            },
            !command.spec_fits() ==> r == Err::<Action, ErrorCode>(ErrorCode::InvalidLength)
                && final(self)@ == old(self)@,
    {
        proof {
            C::lemma_constants();
            <C::Ok as CommandResult>::lemma_constants();
        }
        let mut data = vec![0u8; C::MAX_LEN];
        let n = match command.encode(data.as_mut_slice()) {
            Ok(n) => n,
            Err(e) => return Err(e),
        };
        data.truncate(n);
        let packet = encode_command(data.as_slice());
        let max = <C::Ok as CommandResult>::MAX_LEN;
        self.read_len = if max == 0 { 0 } else { max + 3 };
        self.packet = packet;
        self.response_delay_ms = C::DELAY_RESPONSE_MS;
        self.command_delay_ms = C::DELAY_COMMAND_MS;
        self.phase = Phase::Addressing;
        Ok(Action::SelectAddress(I2C_ADDRESS_DDC_CI))
    }

    fn fail(&mut self)
        ensures
            final(self)@ == (DdcView {
                phase: Phase::Idle,
                delay: armed_for(DELAY_COMMAND_FAILED_MS),
                ..old(self)@
            }),
            final(self).bus() == old(self).bus(),
    {
        self.phase = Phase::Idle;
        self.delay = Delay::new(DELAY_COMMAND_FAILED_MS);
    }

    /// Moves the exchange on by the outcome of the last action and returns
    /// the next one. Whatever ends an exchange arms the delay owed before
    /// the next command: the command's own delay when the reply was
    /// accepted or none was expected, the failed-command delay otherwise.
    /// The request is written only right after the delay owed to earlier
    /// commands has been handed out to sleep.
    pub fn advance(&mut self, event: Event) -> (r: Action)
        ensures
            final(self).bus() == old(self).bus(),
            final(self)@.packet == old(self)@.packet,
            final(self)@.read_len == old(self)@.read_len,
            final(self)@.response_delay_ms == old(self)@.response_delay_ms,
            final(self)@.command_delay_ms == old(self)@.command_delay_ms,
            old(self)@.phase == Phase::Idle ==> r is Abort && final(self)@ == old(self)@,
            old(self)@.phase != Phase::Idle && event is Failed ==> {
                &&& r is Abort
                &&& final(self)@.phase == Phase::Idle
                &&& final(self)@.delay == armed_for(DELAY_COMMAND_FAILED_MS)
            },
            old(self)@.phase == Phase::Addressing && !(event is Failed) ==> {
                &&& final(self)@.phase == Phase::Waiting
                &&& final(self)@.delay == (DelayView { armed: false, delay_ms: old(self)@.delay.delay_ms })
                &&& r matches Action::Sleep(ms) && ms <= old(self)@.delay.delay_ms
                    && (!old(self)@.delay.armed ==> ms == 0)
                    && (old(self)@.delay.armed ==> exists|e: u128|
                        ms == remaining_after(old(self)@.delay.delay_ms, e))
            },
            old(self)@.phase == Phase::Waiting && !(event is Failed) ==> {
                &&& final(self)@.phase == Phase::Sending
                &&& final(self)@.delay == old(self)@.delay
                &&& r matches Action::Write(p) && p@ == old(self)@.packet
            },
            old(self)@.phase == Phase::Sending && !(event is Failed) && old(self)@.read_len == 0 ==> {
                &&& final(self)@.phase == Phase::Idle
                &&& final(self)@.delay == armed_for(old(self)@.command_delay_ms)
                &&& r matches Action::Complete(Ok(p)) && p@.len() == 0
            },
            old(self)@.phase == Phase::Sending && !(event is Failed) && old(self)@.read_len != 0 ==> {
                &&& final(self)@.phase == Phase::WaitingResponse
                &&& final(self)@.delay == old(self)@.delay
                &&& r == Action::Sleep(old(self)@.response_delay_ms)
            },
            old(self)@.phase == Phase::WaitingResponse && !(event is Failed) ==> {
                &&& final(self)@.phase == Phase::Reading
                &&& final(self)@.delay == old(self)@.delay
                &&& r == Action::Read(old(self)@.read_len)
            },
            old(self)@.phase == Phase::Reading && !(event is Failed) ==> {
                let reply = spec_unframe(received(event).0, received(event).1);
                &&& final(self)@.phase == Phase::Idle
                &&& r matches Action::Complete(res) && payload_view(res) == reply
                &&& final(self)@.delay == armed_for(
                    if reply is Ok { old(self)@.command_delay_ms } else { DELAY_COMMAND_FAILED_MS },
                )
            },
            r is Write ==> old(self)@.phase == Phase::Waiting,
            final(self)@.phase == Phase::Waiting ==> old(self)@.phase == Phase::Addressing && r is Sleep,
    {
        if let Phase::Idle = self.phase {
            return Action::Abort;
        }
        if let Event::Failed = event {
            self.fail();
            return Action::Abort;
        }
        match self.phase {
            Phase::Addressing => {
                let ms = self.delay.take_remaining();
                self.phase = Phase::Waiting;
                Action::Sleep(ms)
            },
            Phase::Waiting => {
                self.phase = Phase::Sending;
                Action::Write(self.packet.clone())
            },
            Phase::Sending => {
                if self.read_len == 0 {
                    self.phase = Phase::Idle;
                    self.delay = Delay::new(self.command_delay_ms);
                    Action::Complete(Ok(Vec::new()))
                } else {
                    self.phase = Phase::WaitingResponse;
                    Action::Sleep(self.response_delay_ms)
                }
            },
            Phase::WaitingResponse => {
                self.phase = Phase::Reading;
                Action::Read(self.read_len)
            },
            _ => {
                let res = match &event {
                    Event::Received(buf, n) => decode_response(buf.as_slice(), *n),
                    _ => decode_response(&[], 0),
                };
                self.phase = Phase::Idle;
                match res {
                    Ok(payload) => {
                        self.delay = Delay::new(self.command_delay_ms);
                        Action::Complete(Ok(payload))
                    },
                    Err(e) => {
                        self.delay = Delay::new(DELAY_COMMAND_FAILED_MS);
                        Action::Complete(Err(e))
                    },
                }
            },
        }
    }

    /// Decodes the reply payload of a completed exchange for `C`. A reply
    /// that does not decode arms the failed-command delay; a decoded one
    /// leaves the command's own delay running.
    pub fn finish<C: Command>(&mut self, payload: &[u8]) -> (r: Result<C::Ok, ErrorCode>)
        ensures
            result_view(r) == <C::Ok as CommandResult>::spec_decode(payload@),
            final(self).bus() == old(self).bus(),
            r is Ok ==> final(self)@ == old(self)@,
            r is Err ==> final(self)@ == (DdcView {
                delay: armed_for(DELAY_COMMAND_FAILED_MS),
                ..old(self)@
            }),
    {
        let res = <C::Ok as CommandResult>::decode(payload);
        if res.is_err() {
            self.delay = Delay::new(DELAY_COMMAND_FAILED_MS);
        }
        res
    }
}

/// The outcome of a `GetVcpFeature` exchange whose reply was read into
/// `out`, of which the transport reported `full_len` bytes.
pub open spec fn spec_vcp_outcome(out: Seq<u8>, full_len: int) -> Result<VcpValue, ErrorCode> {
    match spec_unframe(out, full_len) {
        Ok(payload) => <VcpValue as CommandResult>::spec_decode(payload),
        Err(e) => Err(e),
    }
}

/// Reading a VCP feature sends the same packet every time, and the value it
/// yields is made of the reply bytes alone, so a display that answers the
/// same bytes to two reads with nothing set in between yields the same value
/// twice.
pub proof fn lemma_get_vcp_feature_repeatable(
    code: FeatureCode,
    out1: Seq<u8>,
    len1: int,
    out2: Seq<u8>,
    len2: int,
)
    requires
        out1 == out2,
        len1 == len2,
    ensures
        spec_frame(GetVcpFeature { code }.spec_encoding()) == spec_frame(seq![0x01u8, code]),
        spec_vcp_outcome(out1, len1) == spec_vcp_outcome(out2, len2),
        spec_vcp_outcome(out1, len1) is Ok ==> spec_vcp_outcome(out1, len1) == Ok::<VcpValue, ErrorCode>(
            VcpValue { ty: out1[4], mh: out1[6], ml: out1[7], sh: out1[8], sl: out1[9] },
        ),
{
}

} // verus!
