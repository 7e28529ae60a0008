use vstd::prelude::*;
use crate::error::ErrorCode;
use crate::packet::MAX_PACKET_DATA;
use crate::FeatureCode;

verus! {

/// High byte of a big-endian 16-bit field.
pub open spec fn hi_byte(v: u16) -> u8 {
    (v / 256) as u8
}

/// Low byte of a big-endian 16-bit field.
pub open spec fn lo_byte(v: u16) -> u8 {
    (v % 256) as u8
}

/// The 16-bit value of a big-endian byte pair.
pub open spec fn be_u16(hi: u8, lo: u8) -> u16 {
    (hi * 256 + lo) as u16
}

/// The decoded view of a result, with the same error.
pub open spec fn result_view<T: View>(r: Result<T, ErrorCode>) -> Result<T::V, ErrorCode> {
    match r {
        Ok(v) => Ok(v@),
        Err(e) => Err(e),
    }
}

fn split_u16(v: u16) -> (r: (u8, u8))
    ensures
        r.0 == hi_byte(v),
        r.1 == lo_byte(v),
{
    assert((v >> 8u16) < 256u16 && (v >> 8u16) == v / 256u16 && (v & 0xffu16) == v % 256u16)
        by (bit_vector);
    ((v >> 8u16) as u8, (v & 0xffu16) as u8)
}

fn join_u16(hi: u8, lo: u8) -> (r: u16)
    ensures
        r == be_u16(hi, lo),
{
    assert(((hi as u16) << 8u16) | (lo as u16) == (hi as u16) * 256u16 + (lo as u16))
        by (bit_vector);
    ((hi as u16) << 8u16) | (lo as u16)
}

/// A DDC/CI request: its wire encoding, its reply type and its timing.
pub trait Command {
    /// What the display answers with.
    type Ok: CommandResult;

    /// Fewest bytes the request encodes to.
    const MIN_LEN: usize;

    /// Most bytes the request encodes to.
    const MAX_LEN: usize;

    /// Milliseconds to wait after sending before the reply may be read.
    const DELAY_RESPONSE_MS: u64;

    /// Milliseconds owed after this command before the next may be sent.
    const DELAY_COMMAND_MS: u64;

    /// The bytes the request is sent as: opcode, then payload.
    spec fn spec_encoding(&self) -> Seq<u8>;

    /// A request never needs more than one packet; each command also states
    /// the values of its constants here.
    proof fn lemma_constants()
        ensures
            Self::MIN_LEN <= Self::MAX_LEN <= MAX_PACKET_DATA,
    ;

    /// Whether the request fits in one DDC/CI packet.
    spec fn spec_fits(&self) -> bool;

    /// Number of bytes of the encoding.
    fn len(&self) -> (r: usize)
        requires
            self.spec_encoding().len() <= usize::MAX,
        ensures
            r == self.spec_encoding().len(),
    ;

    /// Writes the encoding to the front of `data` and returns its length. A
    /// request that does not fit in a packet is refused with `InvalidLength`
    /// and nothing is written.
    fn encode(&self, data: &mut [u8]) -> (r: Result<usize, ErrorCode>)
        requires
            old(data)@.len() >= Self::MAX_LEN,
        ensures
            final(data)@.len() == old(data)@.len(),
            self.spec_fits() ==> {
                let n = self.spec_encoding().len();
                &&& r == Ok::<usize, ErrorCode>(n as usize)
                &&& Self::MIN_LEN <= n <= Self::MAX_LEN
                &&& final(data)@.take(n as int) == self.spec_encoding()
                &&& final(data)@.skip(n as int) == old(data)@.skip(n as int)
            },
            !self.spec_fits() ==> r == Err::<usize, ErrorCode>(ErrorCode::InvalidLength)
                && final(data)@ == old(data)@,
    ;
}

/// The decoded reply to a DDC/CI request.
pub trait CommandResult: Sized + View {
    /// Fewest payload bytes a valid reply has.
    const MIN_LEN: usize;

    /// Most payload bytes a valid reply has.
    const MAX_LEN: usize;

    /// What a reply payload decodes to.
    spec fn spec_decode(data: Seq<u8>) -> Result<Self::V, ErrorCode>;

    /// A reply never needs more than one packet; each reply type also states
    /// the values of its constants here.
    proof fn lemma_constants()
        ensures
            Self::MIN_LEN <= Self::MAX_LEN <= MAX_PACKET_DATA,
    ;

    /// Decodes a reply payload. A payload whose length lies outside
    /// `MIN_LEN..=MAX_LEN` is refused with `InvalidLength` before its
    /// content is looked at.
    fn decode(data: &[u8]) -> (r: Result<Self, ErrorCode>)
        ensures
            result_view(r) == Self::spec_decode(data@),
            data@.len() < Self::MIN_LEN || data@.len() > Self::MAX_LEN ==> r
                == Err::<Self, ErrorCode>(ErrorCode::InvalidLength),
    ;
}

/// The value of a VCP feature as a display reports it.
#[derive(Clone, Copy, Debug, PartialEq, Eq, Structural, Default, Hash)]
pub struct VcpValue {
    /// Feature type byte.
    pub ty: u8,
    /// High byte of the maximum value.
    pub mh: u8,
    /// Low byte of the maximum value.
    pub ml: u8,
    /// High byte of the current value.
    pub sh: u8,
    /// Low byte of the current value.
    pub sl: u8,
}

impl View for VcpValue {
    type V = VcpValue;

    open spec fn view(&self) -> VcpValue {
        *self
    }
}

impl VcpValue {
    /// The current value.
    pub fn value(&self) -> (r: u16)
        ensures
            r == be_u16(self.sh, self.sl),
    {
        join_u16(self.sh, self.sl)
    }

    /// The maximum value.
    pub fn maximum(&self) -> (r: u16)
        ensures
            r == be_u16(self.mh, self.ml),
    {
        join_u16(self.mh, self.ml)
    }
}

/// Reads the value of a VCP feature.
#[derive(Clone, Copy, Debug)]
pub struct GetVcpFeature {
    /// Feature to read.
    pub code: FeatureCode,
}

impl GetVcpFeature {
    /// Reads feature `code`.
    pub fn new(code: FeatureCode) -> (r: Self)
        ensures
            r.code == code,
    {
        GetVcpFeature { code }
    }
}

impl Command for GetVcpFeature {
    type Ok = VcpValue;

    // every other command asks for 50 ms before the next one
    const DELAY_COMMAND_MS: u64 = 50;
    const DELAY_RESPONSE_MS: u64 = 40;
    const MAX_LEN: usize = 2;
    const MIN_LEN: usize = 2;

    open spec fn spec_encoding(&self) -> Seq<u8> {
        seq![0x01u8, self.code]
    }

    proof fn lemma_constants()
        ensures
            Self::DELAY_COMMAND_MS == 50,
            Self::DELAY_RESPONSE_MS == 40,
            Self::MAX_LEN == 2,
            Self::MIN_LEN == 2,
    {
    }

    open spec fn spec_fits(&self) -> bool {
        true
    }

    fn len(&self) -> (r: usize) {
        2
    }

    fn encode(&self, data: &mut [u8]) -> (r: Result<usize, ErrorCode>) {
        data[0] = 0x01;
        data[1] = self.code;
        assert(data@.take(2) =~= self.spec_encoding());
        assert(data@.skip(2) =~= old(data)@.skip(2));
        Ok(2)
    }
}

impl CommandResult for VcpValue {
    const MAX_LEN: usize = 8;
    const MIN_LEN: usize = 8;

    proof fn lemma_constants()
        ensures
            Self::MAX_LEN == 8,
            Self::MIN_LEN == 8,
    {
    }

    open spec fn spec_decode(data: Seq<u8>) -> Result<VcpValue, ErrorCode> {
        if data.len() != 8 {
            Err(ErrorCode::InvalidLength)
        } else if data[0] != 0x02 {
            Err(ErrorCode::InvalidOpcode)
        } else if data[1] == 0x01 {
            Err(ErrorCode::UnsupportedVcp)
        } else if data[1] != 0x00 {
            Err(ErrorCode::InvalidVcpResult(data[1]))
        } else {
            Ok(VcpValue { ty: data[2], mh: data[4], ml: data[5], sh: data[6], sl: data[7] })
        }
    }

    fn decode(data: &[u8]) -> (r: Result<Self, ErrorCode>) {
        if data.len() != 8 {
            return Err(ErrorCode::InvalidLength);
        }
        if data[0] != 0x02 {
            return Err(ErrorCode::InvalidOpcode);
        }
        match data[1] {
            0x00 => {},
            0x01 => return Err(ErrorCode::UnsupportedVcp),
            rc => return Err(ErrorCode::InvalidVcpResult(rc)),
        }
        // data[3] is not kept
        Ok(VcpValue { ty: data[2], mh: data[4], ml: data[5], sh: data[6], sl: data[7] })
    }
}

/// Sets a VCP feature to a value.
#[derive(Clone, Copy, Debug)]
pub struct SetVcpFeature {
    /// Feature to set.
    pub code: FeatureCode,
    /// Value to set it to.
    pub value: u16,
}

impl SetVcpFeature {
    /// Sets feature `code` to `value`.
    pub fn new(code: FeatureCode, value: u16) -> (r: Self)
        ensures
            r.code == code,
            r.value == value,
    {
        SetVcpFeature { code, value }
    }
}

impl Command for SetVcpFeature {
    type Ok = ();

    const DELAY_COMMAND_MS: u64 = 50;
    const DELAY_RESPONSE_MS: u64 = 0;
    const MAX_LEN: usize = 4;
    const MIN_LEN: usize = 4;

    open spec fn spec_encoding(&self) -> Seq<u8> {
        seq![0x03u8, self.code, hi_byte(self.value), lo_byte(self.value)]
    }

    proof fn lemma_constants()
        ensures
            Self::DELAY_COMMAND_MS == 50,
            Self::DELAY_RESPONSE_MS == 0,
            Self::MAX_LEN == 4,
            Self::MIN_LEN == 4,
    {
    }

    open spec fn spec_fits(&self) -> bool {
        true
    }

    fn len(&self) -> (r: usize) {
        4
    }

    fn encode(&self, data: &mut [u8]) -> (r: Result<usize, ErrorCode>) {
        let (hi, lo) = split_u16(self.value);
        data[0] = 0x03;
        data[1] = self.code;
        data[2] = hi;
        data[3] = lo;
        assert(data@.take(4) =~= self.spec_encoding());
        assert(data@.skip(4) =~= old(data)@.skip(4));
        Ok(4)
    }
}

/// Asks the display to store its current settings.
#[derive(Clone, Copy, Debug)]
pub struct SaveCurrentSettings;

impl Command for SaveCurrentSettings {
    type Ok = ();

    const DELAY_COMMAND_MS: u64 = 200;
    const DELAY_RESPONSE_MS: u64 = 0;
    const MAX_LEN: usize = 1;
    const MIN_LEN: usize = 1;

    open spec fn spec_encoding(&self) -> Seq<u8> {
        seq![0x0cu8]
    }

    proof fn lemma_constants()
        ensures
            Self::DELAY_COMMAND_MS == 200,
            Self::DELAY_RESPONSE_MS == 0,
            Self::MAX_LEN == 1,
            Self::MIN_LEN == 1,
    {
    }

    open spec fn spec_fits(&self) -> bool {
        true
    }

    fn len(&self) -> (r: usize) {
        1
    }

    fn encode(&self, data: &mut [u8]) -> (r: Result<usize, ErrorCode>) {
        data[0] = 0x0c;
        assert(data@.take(1) =~= self.spec_encoding());
        assert(data@.skip(1) =~= old(data)@.skip(1));
        Ok(1)
    }
}

/// Most data bytes one table or capability packet carries.
pub const MAX_CHUNK_LEN: usize = 32;

/// Writes part of a table feature, starting at `offset`.
#[derive(Clone, Copy, Debug)]
pub struct TableWrite<'a> {
    /// Table feature to write.
    pub code: FeatureCode,
    /// Offset within the table of the first byte.
    pub offset: u16,
    /// Bytes to write; at most `MAX_CHUNK_LEN` fit in one packet.
    pub data: &'a [u8],
}

impl<'a> TableWrite<'a> {
    /// Writes `data` to table feature `code` from `offset` on.
    pub fn new(code: FeatureCode, offset: u16, data: &'a [u8]) -> (r: Self)
        ensures
            r.code == code,
            r.offset == offset,
            r.data@ == data@,
    {
        TableWrite { code, offset, data }
    }
}

impl<'a> Command for TableWrite<'a> {
    type Ok = ();

    const DELAY_COMMAND_MS: u64 = 50;
    const DELAY_RESPONSE_MS: u64 = 0;
    const MAX_LEN: usize = 36;
    const MIN_LEN: usize = 4;

    open spec fn spec_encoding(&self) -> Seq<u8> {
        seq![0xe7u8, self.code, hi_byte(self.offset), lo_byte(self.offset)] + self.data@
    }

    proof fn lemma_constants()
        ensures
            Self::DELAY_COMMAND_MS == 50,
            Self::DELAY_RESPONSE_MS == 0,
            Self::MAX_LEN == 36,
            Self::MIN_LEN == 4,
    {
    }

    open spec fn spec_fits(&self) -> bool {
        self.data@.len() <= MAX_CHUNK_LEN
    }

    fn len(&self) -> (r: usize) {
        4 + self.data.len()
    }

    fn encode(&self, data: &mut [u8]) -> (r: Result<usize, ErrorCode>) {
        let n = self.data.len();
        if n > MAX_CHUNK_LEN {
            return Err(ErrorCode::InvalidLength);
        }
        let (hi, lo) = split_u16(self.offset);
        data[0] = 0xe7;
        data[1] = self.code;
        data[2] = hi;
        data[3] = lo;
        let mut i: usize = 0;
        while i < n
            invariant
                n == self.data@.len(),
                n <= MAX_CHUNK_LEN,
                i <= n,
                data@.len() == old(data)@.len(),
                data@.len() >= 36,
                data@[0] == 0xe7u8,
                data@[1] == self.code,
                data@[2] == hi_byte(self.offset),
                data@[3] == lo_byte(self.offset),
                forall|j: int| 0 <= j < i ==> data@[4 + j] == self.data@[j],
                forall|j: int| 4 + n <= j < data@.len() ==> data@[j] == old(data)@[j],
            decreases n - i,
        {
            data[4 + i] = self.data[i];
            i = i + 1;
        }
        assert(data@.take(4 + n as int) =~= self.spec_encoding());
        assert(data@.skip(4 + n as int) =~= old(data)@.skip(4 + n as int));
        Ok(4 + n)
    }
}

/// Reads part of a table feature, starting at `offset`.
#[derive(Clone, Copy, Debug)]
pub struct TableRead {
    /// Table feature to read.
    pub code: FeatureCode,
    /// Offset within the table of the first byte.
    pub offset: u16,
}

impl TableRead {
    /// Reads table feature `code` from `offset` on.
    pub fn new(code: FeatureCode, offset: u16) -> (r: Self)
        ensures
            r.code == code,
            r.offset == offset,
    {
        TableRead { code, offset }
    }
}

impl Command for TableRead {
    type Ok = TableResponse;

    const DELAY_COMMAND_MS: u64 = 50;
    const DELAY_RESPONSE_MS: u64 = 40;
    const MAX_LEN: usize = 4;
    const MIN_LEN: usize = 4;

    open spec fn spec_encoding(&self) -> Seq<u8> {
        seq![0xe2u8, self.code, hi_byte(self.offset), lo_byte(self.offset)]
    }

    proof fn lemma_constants()
        ensures
            Self::DELAY_COMMAND_MS == 50,
            Self::DELAY_RESPONSE_MS == 40,
            Self::MAX_LEN == 4,
            Self::MIN_LEN == 4,
    {
    }

    open spec fn spec_fits(&self) -> bool {
        true
    }

    fn len(&self) -> (r: usize) {
        4
    }

    fn encode(&self, data: &mut [u8]) -> (r: Result<usize, ErrorCode>) {
        let (hi, lo) = split_u16(self.offset);
        data[0] = 0xe2;
        data[1] = self.code;
        data[2] = hi;
        data[3] = lo;
        assert(data@.take(4) =~= self.spec_encoding());
        assert(data@.skip(4) =~= old(data)@.skip(4));
        Ok(4)
    }
}

/// Reads part of the capability string, starting at `offset`.
#[derive(Clone, Copy, Debug)]
pub struct CapabilitiesRequest {
    /// Offset within the capability string of the first byte.
    pub offset: u16,
}

impl CapabilitiesRequest {
    /// Reads the capability string from `offset` on.
    pub fn new(offset: u16) -> (r: Self)
        ensures
            r.offset == offset,
    {
        CapabilitiesRequest { offset }
    }
}

impl Command for CapabilitiesRequest {
    type Ok = CapabilitiesReply;

    const DELAY_COMMAND_MS: u64 = 50;
    const DELAY_RESPONSE_MS: u64 = 40;
    const MAX_LEN: usize = 3;
    const MIN_LEN: usize = 3;

    open spec fn spec_encoding(&self) -> Seq<u8> {
        seq![0xf3u8, hi_byte(self.offset), lo_byte(self.offset)]
    }

    proof fn lemma_constants()
        ensures
            Self::DELAY_COMMAND_MS == 50,
            Self::DELAY_RESPONSE_MS == 40,
            Self::MAX_LEN == 3,
            Self::MIN_LEN == 3,
    {
    }

    open spec fn spec_fits(&self) -> bool {
        true
    }

    fn len(&self) -> (r: usize) {
        3
    }

    fn encode(&self, data: &mut [u8]) -> (r: Result<usize, ErrorCode>) {
        let (hi, lo) = split_u16(self.offset);
        data[0] = 0xf3;
        data[1] = hi;
        data[2] = lo;
        assert(data@.take(3) =~= self.spec_encoding());
        assert(data@.skip(3) =~= old(data)@.skip(3));
        Ok(3)
    }
}

/// Decodes an offset-tagged chunk reply (table or capabilities) whose
/// opcode is `opcode`.
pub open spec fn spec_decode_chunk(data: Seq<u8>, opcode: u8) -> Result<(u16, Seq<u8>), ErrorCode> {
    if data.len() < 3 || data.len() > 3 + MAX_CHUNK_LEN {
        Err(ErrorCode::InvalidLength)
    } else if data[0] != opcode {
        Err(ErrorCode::InvalidOpcode)
    } else {
        Ok((be_u16(data[1], data[2]), data.subrange(3, data.len() as int)))
    }
}

fn decode_chunk(data: &[u8], opcode: u8) -> (r: Result<(u16, Vec<u8>), ErrorCode>)
    ensures
        match r {
            Ok((offset, bytes)) => spec_decode_chunk(data@, opcode) == Ok::<(u16, Seq<u8>), ErrorCode>((offset, bytes@)),
            Err(e) => spec_decode_chunk(data@, opcode) == Err::<(u16, Seq<u8>), ErrorCode>(e),
        },
{
    let n = data.len();
    if n < 3 || n > 3 + MAX_CHUNK_LEN {
        return Err(ErrorCode::InvalidLength);
    }
    if data[0] != opcode {
        return Err(ErrorCode::InvalidOpcode);
    }
    let offset = join_u16(data[1], data[2]);
    let mut bytes: Vec<u8> = Vec::new();
    let mut i: usize = 3;
    while i < n
        invariant
            n == data@.len(),
            3 <= i <= n,
            bytes@ == data@.subrange(3, i as int),
        decreases n - i,
    {
        bytes.push(data[i]);
        i = i + 1;
    }
    Ok((offset, bytes))
}

/// A chunk of a table feature.
#[derive(Clone, Debug)]
pub struct TableResponse {
    /// Offset of the chunk within the table.
    pub offset: u16,
    data: Vec<u8>,
}

impl View for TableResponse {
    type V = (u16, Seq<u8>);

    closed spec fn view(&self) -> (u16, Seq<u8>) {
        (self.offset, self.data@)
    }
}

impl TableResponse {
    /// Offset of the chunk within the table.
    pub fn offset(&self) -> (r: u16)
        ensures
            r == self@.0,
    {
        self.offset
    }

    /// The bytes of the chunk.
    pub fn bytes(&self) -> (r: &[u8])
        ensures
            r@ == self@.1,
    {
        self.data.as_slice()
    }
}

impl Default for TableResponse {
    fn default() -> (r: Self)
        ensures
            r@ == (0u16, Seq::<u8>::empty()),
    {
        TableResponse { offset: 0, data: Vec::new() }
    }
}

impl CommandResult for TableResponse {
    const MAX_LEN: usize = 35;
    const MIN_LEN: usize = 3;

    proof fn lemma_constants()
        ensures
            Self::MAX_LEN == 35,
            Self::MIN_LEN == 3,
    {
    }

    open spec fn spec_decode(data: Seq<u8>) -> Result<(u16, Seq<u8>), ErrorCode> {
        spec_decode_chunk(data, 0xe4)
    }

    fn decode(data: &[u8]) -> (r: Result<Self, ErrorCode>) {
        match decode_chunk(data, 0xe4) {
            Ok((offset, bytes)) => Ok(TableResponse { offset, data: bytes }),
            Err(e) => Err(e),
        }
    }
}

/// A chunk of the capability string.
#[derive(Clone, Debug)]
pub struct CapabilitiesReply {
    /// Offset of the chunk within the capability string.
    pub offset: u16,
    /// Bytes of the chunk.
    pub data: Vec<u8>,
}

impl View for CapabilitiesReply {
    type V = (u16, Seq<u8>);

    open spec fn view(&self) -> (u16, Seq<u8>) {
        (self.offset, self.data@)
    }
}

impl CommandResult for CapabilitiesReply {
    const MAX_LEN: usize = 35;
    const MIN_LEN: usize = 3;

    proof fn lemma_constants()
        ensures
            Self::MAX_LEN == 35,
            Self::MIN_LEN == 3,
    {
    }

    open spec fn spec_decode(data: Seq<u8>) -> Result<(u16, Seq<u8>), ErrorCode> {
        spec_decode_chunk(data, 0xe3)
    }

    fn decode(data: &[u8]) -> (r: Result<Self, ErrorCode>) {
        match decode_chunk(data, 0xe3) {
            Ok((offset, bytes)) => Ok(CapabilitiesReply { offset, data: bytes }),
            Err(e) => Err(e),
        }
    }
}

/// Asks the display for its timing report.
#[derive(Clone, Copy, Debug)]
pub struct GetTimingReport;

impl Command for GetTimingReport {
    type Ok = TimingMessage;

    const DELAY_COMMAND_MS: u64 = 50;
    const DELAY_RESPONSE_MS: u64 = 40;
    const MAX_LEN: usize = 1;
    const MIN_LEN: usize = 1;

    open spec fn spec_encoding(&self) -> Seq<u8> {
        seq![0x07u8]
    }

    proof fn lemma_constants()
        ensures
            Self::DELAY_COMMAND_MS == 50,
            Self::DELAY_RESPONSE_MS == 40,
            Self::MAX_LEN == 1,
            Self::MIN_LEN == 1,
    {
    }

    open spec fn spec_fits(&self) -> bool {
        true
    }

    fn len(&self) -> (r: usize) {
        1
    }

    fn encode(&self, data: &mut [u8]) -> (r: Result<usize, ErrorCode>) {
        data[0] = 0x07;
        assert(data@.take(1) =~= self.spec_encoding());
        assert(data@.skip(1) =~= old(data)@.skip(1));
        Ok(1)
    }
}

/// The timing report of a display.
#[derive(Clone, Copy, Debug, PartialEq, Eq, Structural)]
pub struct TimingMessage {
    /// Timing status byte.
    pub timing_status: u8,
    /// Horizontal frequency.
    pub horizontal_frequency: u16,
    /// Vertical frequency.
    pub vertical_frequency: u16,
}

impl View for TimingMessage {
    type V = TimingMessage;

    open spec fn view(&self) -> TimingMessage {
        *self
    }
}

impl CommandResult for TimingMessage {
    const MAX_LEN: usize = 6;
    const MIN_LEN: usize = 6;

    proof fn lemma_constants()
        ensures
            Self::MAX_LEN == 6,
            Self::MIN_LEN == 6,
    {
    }

    open spec fn spec_decode(data: Seq<u8>) -> Result<TimingMessage, ErrorCode> {
        if data.len() != 6 {
            Err(ErrorCode::InvalidLength)
        } else if data[0] != 0x4e {
            Err(ErrorCode::InvalidOpcode)
        } else {
            Ok(
                TimingMessage {
                    timing_status: data[1],
                    horizontal_frequency: be_u16(data[2], data[3]),
                    vertical_frequency: be_u16(data[4], data[5]),
                },
            )
        }
    }

    fn decode(data: &[u8]) -> (r: Result<Self, ErrorCode>) {
        if data.len() != 6 {
            return Err(ErrorCode::InvalidLength);
        }
        if data[0] != 0x4e {
            return Err(ErrorCode::InvalidOpcode);
        }
        Ok(
            TimingMessage {
                timing_status: data[1],
                horizontal_frequency: join_u16(data[2], data[3]),
                vertical_frequency: join_u16(data[4], data[5]),
            },
        )
    }
}

impl CommandResult for () {
    const MAX_LEN: usize = 0;
    const MIN_LEN: usize = 0;

    proof fn lemma_constants()
        ensures
            Self::MAX_LEN == 0,
            Self::MIN_LEN == 0,
    {
    }

    open spec fn spec_decode(data: Seq<u8>) -> Result<(), ErrorCode> {
        if data.len() == 0 {
            Ok(())
        } else {
            Err(ErrorCode::InvalidLength)
        }
    }

    fn decode(data: &[u8]) -> (r: Result<Self, ErrorCode>) {
        if data.len() == 0 {
            Ok(())
        } else {
            Err(ErrorCode::InvalidLength)
        }
    }
}

impl<'a, C: Command> Command for &'a C {
    type Ok = C::Ok;

    const DELAY_COMMAND_MS: u64 = C::DELAY_COMMAND_MS;
    const DELAY_RESPONSE_MS: u64 = C::DELAY_RESPONSE_MS;
    const MAX_LEN: usize = C::MAX_LEN;
    const MIN_LEN: usize = C::MIN_LEN;

    proof fn lemma_constants() {
        C::lemma_constants();
    }

    open spec fn spec_encoding(&self) -> Seq<u8> {
        (**self).spec_encoding()
    }

    open spec fn spec_fits(&self) -> bool {
        (**self).spec_fits()
    }

    fn len(&self) -> (r: usize) {
        (**self).len()
    }

    fn encode(&self, data: &mut [u8]) -> (r: Result<usize, ErrorCode>) {
        (**self).encode(data)
    }
}

} // verus!
