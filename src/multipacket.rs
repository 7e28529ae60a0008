use vstd::prelude::*;
use crate::commands::{CapabilitiesReply, CapabilitiesRequest, TableRead, TableResponse, TableWrite, MAX_CHUNK_LEN};
use crate::error::ErrorCode;
use crate::FeatureCode;

verus! {

/// A value read in offset-tagged chunks (the capability string, a table
/// feature): the bytes gathered so far and the offset of the next chunk.
pub struct ChunkedRead {
    offset: u16,
    bytes: Vec<u8>,
}

/// What a chunked read holds.
pub struct ChunkedReadView {
    /// Offset of the next chunk to request.
    pub offset: u16,
    /// Bytes gathered so far.
    pub bytes: Seq<u8>,
}

impl View for ChunkedRead {
    type V = ChunkedReadView;

    closed spec fn view(&self) -> ChunkedReadView {
        ChunkedReadView { offset: self.offset, bytes: self.bytes@ }
    }
}

impl ChunkedRead {
    /// Starts a read at offset zero with nothing gathered.
    pub fn new() -> (r: Self)
        ensures
            r@ == (ChunkedReadView { offset: 0, bytes: Seq::empty() }),
    {
        ChunkedRead { offset: 0, bytes: Vec::new() }
    }

    /// Offset of the next chunk to request.
    pub fn offset(&self) -> (r: u16)
        ensures
            r == self@.offset,
    {
        self.offset
    }

    /// The bytes gathered so far.
    pub fn bytes(&self) -> (r: &[u8])
        ensures
            r@ == self@.bytes,
    {
        self.bytes.as_slice()
    }

    /// Ends the read and returns the bytes gathered.
    pub fn into_bytes(self) -> (r: Vec<u8>)
        ensures
            r@ == self@.bytes,
    {
        self.bytes
    }

    /// Takes in the chunk `data` that the display tagged with `offset`.
    /// A chunk tagged with another offset than the one requested is refused
    /// with `InvalidOffset`, and one that would carry the value past the
    /// 16-bit offset range with `InvalidLength`; neither is appended. An empty
    /// chunk ends the value: `Ok(true)`. Any other chunk is appended, the
    /// offset advances by its length, and `Ok(false)` asks for the next one.
    pub fn accept(&mut self, offset: u16, data: &[u8]) -> (r: Result<bool, ErrorCode>)
        ensures
            offset != old(self)@.offset ==> r == Err::<bool, ErrorCode>(ErrorCode::InvalidOffset)
                && final(self)@ == old(self)@,
            offset == old(self)@.offset && data@.len() == 0 ==> r == Ok::<bool, ErrorCode>(true)
                && final(self)@ == old(self)@,
            offset == old(self)@.offset && data@.len() > 0 && offset + data@.len() > u16::MAX ==> r
                == Err::<bool, ErrorCode>(ErrorCode::InvalidLength) && final(self)@ == old(self)@,
            offset == old(self)@.offset && data@.len() > 0 && offset + data@.len() <= u16::MAX ==> r
                == Ok::<bool, ErrorCode>(false) && final(self)@ == (ChunkedReadView {
                offset: (offset + data@.len()) as u16,
                bytes: old(self)@.bytes + data@,
            }),
    {
        if offset != self.offset {
            return Err(ErrorCode::InvalidOffset);
        }
        let n = data.len();
        if n == 0 {
            return Ok(true);
        }
        if n > (u16::MAX - self.offset) as usize {
            return Err(ErrorCode::InvalidLength);
        }
        let mut i: usize = 0;
        while i < n
            invariant
                n == data@.len(),
                i <= n,
                self.offset == old(self)@.offset,
                self.bytes@ == old(self)@.bytes + data@.take(i as int),
            decreases n - i,
        {
            self.bytes.push(data[i]);
            i = i + 1;
            assert(self.bytes@ =~= old(self)@.bytes + data@.take(i as int));
        }
        assert(data@.take(n as int) =~= data@);
        self.offset = self.offset + n as u16;
        Ok(false)
    }

    /// The request for the next chunk of the capability string.
    pub fn capabilities_request(&self) -> (r: CapabilitiesRequest)
        ensures
            r.offset == self@.offset,
    {
        CapabilitiesRequest::new(self.offset)
    }

    /// Takes in a chunk of the capability string, as `accept` does.
    pub fn accept_capabilities(&mut self, reply: &CapabilitiesReply) -> (r: Result<bool, ErrorCode>)
        ensures
            reply.offset != old(self)@.offset ==> r == Err::<bool, ErrorCode>(ErrorCode::InvalidOffset)
                && final(self)@ == old(self)@,
            reply.offset == old(self)@.offset && reply.data@.len() == 0 ==> r == Ok::<bool, ErrorCode>(true)
                && final(self)@ == old(self)@,
            reply.offset == old(self)@.offset && reply.data@.len() > 0 && reply.offset + reply.data@.len()
                > u16::MAX ==> r == Err::<bool, ErrorCode>(ErrorCode::InvalidLength) && final(self)@ == old(self)@,
            reply.offset == old(self)@.offset && reply.data@.len() > 0 && reply.offset + reply.data@.len()
                <= u16::MAX ==> r == Ok::<bool, ErrorCode>(false) && final(self)@ == (ChunkedReadView {
                offset: (reply.offset + reply.data@.len()) as u16,
                bytes: old(self)@.bytes + reply.data@,
            }),
    {
        self.accept(reply.offset, reply.data.as_slice())
    }

    /// The request for the next chunk of table feature `code`.
    pub fn table_request(&self, code: FeatureCode) -> (r: TableRead)
        ensures
            r.code == code,
            r.offset == self@.offset,
    {
        TableRead::new(code, self.offset)
    }

    /// Takes in a chunk of a table feature, as `accept` does.
    pub fn accept_table(&mut self, reply: &TableResponse) -> (r: Result<bool, ErrorCode>)
        ensures
            reply@.0 != old(self)@.offset ==> r == Err::<bool, ErrorCode>(ErrorCode::InvalidOffset)
                && final(self)@ == old(self)@,
            reply@.0 == old(self)@.offset && reply@.1.len() == 0 ==> r == Ok::<bool, ErrorCode>(true)
                && final(self)@ == old(self)@,
            reply@.0 == old(self)@.offset && reply@.1.len() > 0 && reply@.0 + reply@.1.len() > u16::MAX
                ==> r == Err::<bool, ErrorCode>(ErrorCode::InvalidLength) && final(self)@ == old(self)@,
            reply@.0 == old(self)@.offset && reply@.1.len() > 0 && reply@.0 + reply@.1.len() <= u16::MAX
                ==> r == Ok::<bool, ErrorCode>(false) && final(self)@ == (ChunkedReadView {
                offset: (reply@.0 + reply@.1.len()) as u16,
                bytes: old(self)@.bytes + reply@.1,
            }),
    {
        let bytes = reply.bytes();
        self.accept(reply.offset(), bytes)
    }
}

/// Number of chunks of at most `MAX_CHUNK_LEN` bytes that `n` bytes take.
pub open spec fn chunk_count(n: nat) -> nat {
    ((n + MAX_CHUNK_LEN - 1) / MAX_CHUNK_LEN as int) as nat
}

/// Splits `value`, to be written to table feature `code` from `offset` on,
/// into one `TableWrite` per chunk of at most `MAX_CHUNK_LEN` bytes, with
/// offsets advancing by the chunk lengths. A value reaching past the 16-bit
/// offset range is refused with `InvalidLength`.
pub fn table_write_chunks<'a>(code: FeatureCode, offset: u16, value: &'a [u8]) -> (r: Result<
    Vec<TableWrite<'a>>,
    ErrorCode,
>)
    ensures
        offset + value@.len() > u16::MAX + 1 ==> r == Err::<Vec<TableWrite<'a>>, ErrorCode>(
            ErrorCode::InvalidLength,
        ),
        offset + value@.len() <= u16::MAX + 1 ==> (r matches Ok(chunks) && {
            &&& chunks@.len() == chunk_count(value@.len())
            &&& forall|k: int|
                0 <= k < chunks@.len() ==> {
                    let start = k * MAX_CHUNK_LEN;
                    let end = if start + MAX_CHUNK_LEN <= value@.len() {
                        start + MAX_CHUNK_LEN
                    } else {
                        value@.len() as int
                    };
                    &&& (#[trigger] chunks@[k]).code == code
                    &&& chunks@[k].offset == offset + start
                    &&& chunks@[k].data@ == value@.subrange(start, end)
                }
        }),
{
    let n = value.len();
    if n > (u16::MAX - offset) as usize + 1 {
        return Err(ErrorCode::InvalidLength);
    }
    let mut chunks: Vec<TableWrite<'a>> = Vec::new();
    let mut start: usize = 0;
    while start < n
        invariant
            n == value@.len(),
            offset + n <= u16::MAX + 1,
            start <= n,
            start < n ==> start == chunks@.len() * MAX_CHUNK_LEN && chunks@.len() < chunk_count(n as nat),
            start >= n ==> chunks@.len() == chunk_count(n as nat),
            forall|k: int|
                0 <= k < chunks@.len() ==> {
                    let s = k * MAX_CHUNK_LEN;
                    let e = if s + MAX_CHUNK_LEN <= n { s + MAX_CHUNK_LEN } else { n as int };
                    &&& (#[trigger] chunks@[k]).code == code
                    &&& chunks@[k].offset == offset + s
                    &&& chunks@[k].data@ == value@.subrange(s, e)
                },
        decreases n - start,
    {
        let end = if n - start >= MAX_CHUNK_LEN { start + MAX_CHUNK_LEN } else { n };
        let data = vstd::slice::slice_subrange(value, start, end);
        let chunk = TableWrite::new(code, offset + start as u16, data);
        let ghost c = chunks@.len() as int;
        chunks.push(chunk);
        proof {
            let nn = n as int;
            assert(chunk_count(n as nat) == (nn + 31) / 32);
            if end < n {
                assert((c + 1) * 32 < nn ==> c + 1 < (nn + 31) / 32) by (nonlinear_arith);
                assert(end == (c + 1) * 32) by (nonlinear_arith)
                    requires
                        start == c * 32,
                        end == start + 32,
                ;
            } else if n - start >= MAX_CHUNK_LEN {
                assert((c + 1) * 32 == nn ==> c + 1 == (nn + 31) / 32) by (nonlinear_arith);
                assert(end == (c + 1) * 32) by (nonlinear_arith)
                    requires
                        start == c * 32,
                        end == start + 32,
                ;
            } else {
                assert(c * 32 < nn < c * 32 + 32 ==> c + 1 == (nn + 31) / 32) by (nonlinear_arith);
            }
        }
        start = end;
    }
    Ok(chunks)
}

} // verus!
