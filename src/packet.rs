use vstd::prelude::*;
use crate::error::ErrorCode;
use crate::{I2C_ADDRESS_DDC_CI, SUB_ADDRESS_DDC_CI};

verus! {

/// Longest request payload one packet carries.
pub const MAX_PACKET_DATA: usize = 36;

/// The running XOR of a byte sequence.
pub open spec fn xor_all(s: Seq<u8>) -> u8
    decreases s.len(),
{
    if s.len() == 0 {
        0
    } else {
        xor_all(s.drop_last()) ^ s.last()
    }
}

/// The host's DDC/CI address in write direction.
pub open spec fn host_write_address() -> u8 {
    (2 * I2C_ADDRESS_DDC_CI) as u8
}

/// The host's DDC/CI address in read direction.
pub open spec fn host_read_address() -> u8 {
    (2 * I2C_ADDRESS_DDC_CI + 1) as u8
}

/// The length byte of a packet: the length with the marker bit set.
pub open spec fn length_byte(n: nat) -> u8 {
    0x80u8 | (n as u8)
}

/// The packet a request payload is sent as: sub-address, length byte,
/// payload, and the XOR of the write address and all preceding bytes.
pub open spec fn spec_frame(data: Seq<u8>) -> Seq<u8> {
    let body = seq![SUB_ADDRESS_DDC_CI, length_byte(data.len())] + data;
    body.push(xor_all(seq![host_write_address()] + body))
}

/// The checksum a reply packet must end with, given the length byte and
/// payload in `body`.
pub open spec fn reply_checksum(body: Seq<u8>) -> u8 {
    xor_all(seq![host_read_address(), SUB_ADDRESS_DDC_CI] + body)
}

/// The payload of a reply read into `out`, of which the transport reported
/// `full_len` bytes, or why the reply is refused.
pub open spec fn spec_unframe(out: Seq<u8>, full_len: int) -> Result<Seq<u8>, ErrorCode> {
    if full_len < 2 || out.len() < 2 {
        Err(ErrorCode::InvalidLength)
    } else if out[1] & 0x80 == 0 {
        Err(ErrorCode::InvalidData)
    } else {
        let len = (out[1] & 0x7f) as int;
        if full_len < len + 2 || out.len() < len + 3 {
            Err(ErrorCode::InvalidLength)
        } else if out[len + 2] != reply_checksum(out.subrange(1, len + 2)) {
            Err(ErrorCode::InvalidChecksum)
        } else {
            Ok(out.subrange(2, len + 2))
        }
    }
}

proof fn lemma_xor_push(s: Seq<u8>, b: u8)
    ensures
        xor_all(s.push(b)) == xor_all(s) ^ b,
{
    assert(s.push(b).drop_last() =~= s);
}

proof fn lemma_xor_prepend(a: u8, s: Seq<u8>)
    ensures
        xor_all(seq![a] + s) == a ^ xor_all(s),
    decreases s.len(),
{
    if s.len() == 0 {
        assert(seq![a] + s =~= seq![a]);
        assert(seq![a].drop_last() =~= Seq::<u8>::empty());
        assert(xor_all(seq![a]) == xor_all(Seq::<u8>::empty()) ^ a);
        assert(a ^ 0u8 == a) by (bit_vector);
        assert(0u8 ^ a == a) by (bit_vector);
    } else {
        let t = s.drop_last();
        let l = s.last();
        lemma_xor_prepend(a, t);
        assert((seq![a] + s).drop_last() =~= seq![a] + t);
        assert((seq![a] + s).last() == l);
        assert(xor_all(seq![a] + s) == xor_all(seq![a] + t) ^ l);
        assert(xor_all(s) == xor_all(t) ^ l);
        let x = xor_all(t);
        assert((a ^ x) ^ l == a ^ (x ^ l)) by (bit_vector);
    }
}

/// Replacing one byte changes the running XOR by the XOR of the old and
/// new byte.
pub proof fn lemma_xor_update(s: Seq<u8>, i: int, v: u8)
    requires
        0 <= i < s.len(),
    ensures
        xor_all(s.update(i, v)) == xor_all(s) ^ s[i] ^ v,
    decreases s.len(),
{
    let t = s.drop_last();
    let l = s.last();
    let x = xor_all(t);
    if i == s.len() - 1 {
        assert(s.update(i, v).drop_last() =~= t);
        assert(x ^ v == (x ^ l) ^ l ^ v) by (bit_vector);
    } else {
        lemma_xor_update(t, i, v);
        assert(s.update(i, v).drop_last() =~= t.update(i, v));
        let w = s[i];
        assert((x ^ w ^ v) ^ l == (x ^ l) ^ w ^ v) by (bit_vector);
    }
}

/// A reply whose envelope is accepted is refused with `InvalidChecksum`
/// once any single bit of its payload is flipped while its checksum byte is
/// left as it was.
pub proof fn lemma_payload_bit_flip_detected(out: Seq<u8>, full_len: int, i: int, bit: u8)
    requires
        spec_unframe(out, full_len) is Ok,
        2 <= i < 2 + spec_unframe(out, full_len)->Ok_0.len(),
        bit < 8,
    ensures
        spec_unframe(out.update(i, out[i] ^ (1u8 << bit)), full_len) == Err::<Seq<u8>, ErrorCode>(
            ErrorCode::InvalidChecksum,
        ),
{
    let len = (out[1] & 0x7f) as int;
    let w = out[i];
    let v = w ^ (1u8 << bit);
    let flipped = out.update(i, v);
    let prefix = seq![host_read_address(), SUB_ADDRESS_DDC_CI];
    let whole = prefix + out.subrange(1, len + 2);
    assert(prefix + flipped.subrange(1, len + 2) =~= whole.update(i + 1, v));
    lemma_xor_update(whole, i + 1, v);
    let x = xor_all(whole);
    assert(x ^ w ^ (w ^ (1u8 << bit)) != x) by (bit_vector)
        requires
            bit < 8,
    ;
}

/// The running XOR of a byte sequence.
pub fn checksum(bytes: &[u8]) -> (r: u8)
    ensures
        r == xor_all(bytes@),
{
    let mut sum: u8 = 0;
    let mut i: usize = 0;
    while i < bytes.len()
        invariant
            i <= bytes@.len(),
            sum == xor_all(bytes@.take(i as int)),
        decreases bytes@.len() - i,
    {
        proof {
            assert(bytes@.take(i + 1) =~= bytes@.take(i as int).push(bytes@[i as int]));
            lemma_xor_push(bytes@.take(i as int), bytes@[i as int]);
        }
        sum = sum ^ bytes[i];
        i = i + 1;
    }
    assert(bytes@.take(i as int) =~= bytes@);
    sum
}

/// Wraps a request payload into a DDC/CI packet.
pub fn encode_command(data: &[u8]) -> (r: Vec<u8>)
    requires
        data@.len() <= MAX_PACKET_DATA,
    ensures
        r@ == spec_frame(data@),
{
    let n = data.len();
    let mut packet: Vec<u8> = Vec::new();
    packet.push(SUB_ADDRESS_DDC_CI);
    packet.push(0x80u8 | (n as u8));
    let mut i: usize = 0;
    while i < n
        invariant
            n == data@.len(),
            i <= n,
            packet@ == seq![SUB_ADDRESS_DDC_CI, length_byte(data@.len())] + data@.take(i as int),
        decreases n - i,
    {
        packet.push(data[i]);
        i = i + 1;
        assert(packet@ =~= seq![SUB_ADDRESS_DDC_CI, length_byte(data@.len())] + data@.take(i as int));
    }
    assert(data@.take(n as int) =~= data@);
    let sum = checksum(packet.as_slice());
    let address: u8 = (I2C_ADDRESS_DDC_CI as u8) << 1u8;
    assert(address == host_write_address()) by {
        assert(((0x37u16 as u8) << 1u8) == 0x6eu8) by (bit_vector);
    }
    proof {
        lemma_xor_prepend(address, packet@);
    }
    packet.push(address ^ sum);
    packet
}

/// Takes the payload out of a reply packet read into `out`, of which the
/// transport reported `full_len` bytes.
pub fn decode_response(out: &[u8], full_len: usize) -> (r: Result<Vec<u8>, ErrorCode>)
    ensures
        match r {
            Ok(payload) => spec_unframe(out@, full_len as int) == Ok::<Seq<u8>, ErrorCode>(payload@),
            Err(e) => spec_unframe(out@, full_len as int) == Err::<Seq<u8>, ErrorCode>(e),
        },
{
    if full_len < 2 || out.len() < 2 {
        return Err(ErrorCode::InvalidLength);
    }
    if out[1] & 0x80 == 0 {
        return Err(ErrorCode::InvalidData);
    }
    let len = (out[1] & 0x7f) as usize;
    if full_len < len + 2 || out.len() < len + 3 {
        return Err(ErrorCode::InvalidLength);
    }
    let mut body: Vec<u8> = Vec::new();
    let end = len + 2;
    let mut i: usize = 1;
    while i < end
        invariant
            end == len + 2,
            len + 3 <= out@.len(),
            1 <= i <= end,
            body@ == out@.subrange(1, i as int),
        decreases end - i,
    {
        body.push(out[i]);
        i = i + 1;
    }
    let sum = checksum(body.as_slice());
    let address: u8 = ((I2C_ADDRESS_DDC_CI as u8) << 1u8) | 1u8;
    assert(address == host_read_address()) by {
        assert((((0x37u16 as u8) << 1u8) | 1u8) == 0x6fu8) by (bit_vector);
    }
    proof {
        lemma_xor_prepend(SUB_ADDRESS_DDC_CI, body@);
        lemma_xor_prepend(address, seq![SUB_ADDRESS_DDC_CI] + body@);
        assert(seq![address] + (seq![SUB_ADDRESS_DDC_CI] + body@) =~= seq![address, SUB_ADDRESS_DDC_CI] + body@);
    }
    if out[len + 2] != address ^ (SUB_ADDRESS_DDC_CI ^ sum) {
        return Err(ErrorCode::InvalidChecksum);
    }
    body.remove(0);
    assert(body@ =~= out@.subrange(2, len + 2));
    Ok(body)
}

} // verus!
