//! Plaintext wire envelope: `0x00`, then the body length and the type id as
//! LEB128 varints, then the body. Decoding reconstructs the canonical
//! payload `type_id (u16 BE) + length (u16 BE) + body` so that the upper
//! layer sees the same byte shape as under the Noise envelope.

use vstd::prelude::*;
use vstd::string::StringExecFns;
use vstd::arithmetic::div_mod::{lemma_fundamental_div_mod, lemma_div_denominator};

use crate::decimal::{dec_str, u16_dec_str};
use crate::error::{ClientError, ProtocolError, StreamError};

verus! {

/// Preamble byte of a plaintext frame.
pub const PLAIN_PREAMBLE: u8 = 0x00;

/// Number of bytes in the LEB128 encoding of `v`.
pub open spec fn leb128_len(v: u16) -> int {
    if v < 128 {
        1
    } else if v < 16384 {
        2
    } else {
        3
    }
}

/// The LEB128 encoding of `v`: 7 value bits per byte, continuation flag at
/// bit 7, least-significant group first.
pub open spec fn to_leb128_spec(v: u16) -> Seq<u8> {
    if v < 128 {
        seq![v as u8]
    } else if v < 16384 {
        seq![(v % 128 + 128) as u8, (v / 128) as u8]
    } else {
        seq![(v % 128 + 128) as u8, ((v / 128) % 128 + 128) as u8, (v / 16384) as u8]
    }
}

/// Value of a varint group read little-endian, 7 bits per byte, ignoring
/// continuation flags.
pub open spec fn varint_val(s: Seq<u8>) -> int
    decreases s.len(),
{
    if s.len() == 0 {
        0
    } else {
        (s[0] as int) % 128 + 128 * varint_val(s.subrange(1, s.len() as int))
    }
}

/// A terminated varint (a byte without the continuation flag) begins at
/// `start` within the three-byte window a u16 admits.
pub open spec fn varint_complete(s: Seq<u8>, start: int) -> bool {
    ||| (start < s.len() && s[start] < 128)
    ||| (start + 1 < s.len() && s[start] >= 128 && s[start + 1] < 128)
    ||| (start + 2 < s.len() && s[start] >= 128 && s[start + 1] >= 128 && s[start + 2] < 128)
}

/// Three continuation bytes in a row: the accumulated shift would pass 16
/// bits, so the varint cannot be one of a u16.
pub open spec fn varint_overlong(s: Seq<u8>, start: int) -> bool {
    start + 3 <= s.len() && s[start] >= 128 && s[start + 1] >= 128 && s[start + 2] >= 128
}

/// Position one past the terminating byte of the varint at `start`.
pub open spec fn varint_end(s: Seq<u8>, start: int) -> int {
    if start < s.len() && s[start] < 128 {
        start + 1
    } else if start + 1 < s.len() && s[start + 1] < 128 {
        start + 2
    } else {
        start + 3
    }
}

/// Value of the varint at `start`, reduced to u16 as the accumulator is.
pub open spec fn varint_value(s: Seq<u8>, start: int) -> u16 {
    (varint_val(s.subrange(start, varint_end(s, start))) % 0x10000) as u16
}

/// Outcome of scanning one varint out of a byte slice.
enum VarintRead {
    /// Value and the position one past its last byte.
    Done(u16, usize),
    /// The bytes ran out before a terminating byte.
    Short,
    /// Three continuation bytes in a row: no u16 varint starts here.
    Long,
}

proof fn lemma_varint_val_unfold(s: Seq<u8>)
    requires
        s.len() >= 1,
    ensures
        varint_val(s) == (s[0] as int) % 128 + 128 * varint_val(s.subrange(1, s.len() as int)),
{
}

/// Scans one varint. Exactly one of the three outcomes holds, as the
/// ensures describe.
fn read_varint(payload: &[u8], start: usize) -> (r: VarintRead)
    ensures
        varint_complete(payload@, start as int) ==> r == VarintRead::Done(
            varint_value(payload@, start as int),
            varint_end(payload@, start as int) as usize,
        ),
        varint_overlong(payload@, start as int) ==> r == VarintRead::Long,
        !varint_complete(payload@, start as int) && !varint_overlong(payload@, start as int)
            ==> r == VarintRead::Short,
        r matches VarintRead::Done(v, end) ==> start < end && end <= payload@.len(),
{
    let n = payload.len();
    if start >= n {
        return VarintRead::Short;
    }
    let b0 = payload[start];
    if b0 < 128 {
        proof {
            let s = payload@.subrange(start as int, start as int + 1);
            assert(s =~= seq![b0]);
            lemma_varint_val_unfold(s);
            assert(s.subrange(1, 1) =~= Seq::<u8>::empty());
        }
        return VarintRead::Done(b0 as u16, start + 1);
    }
    if n - start < 2 {
        return VarintRead::Short;
    }
    let b1 = payload[start + 1];
    if b1 < 128 {
        let v: u32 = (b0 as u32 % 128) + 128 * (b1 as u32);
        proof {
            let s = payload@.subrange(start as int, start as int + 2);
            assert(s =~= seq![b0, b1]);
            lemma_varint_val_unfold(s);
            let s1 = s.subrange(1, 2);
            assert(s1 =~= seq![b1]);
            lemma_varint_val_unfold(s1);
            assert(s1.subrange(1, 1) =~= Seq::<u8>::empty());
        }
        return VarintRead::Done((v % 0x10000) as u16, start + 2);
    }
    if n - start < 3 {
        return VarintRead::Short;
    }
    let b2 = payload[start + 2];
    if b2 < 128 {
        let v: u32 = (b0 as u32 % 128) + 128 * (b1 as u32 % 128) + 16384 * (b2 as u32);
        proof {
            let s = payload@.subrange(start as int, start as int + 3);
            assert(s =~= seq![b0, b1, b2]);
            lemma_varint_val_unfold(s);
            let s1 = s.subrange(1, 3);
            assert(s1 =~= seq![b1, b2]);
            lemma_varint_val_unfold(s1);
            let s2 = s1.subrange(1, 2);
            assert(s2 =~= seq![b2]);
            lemma_varint_val_unfold(s2);
            assert(s2.subrange(1, 1) =~= Seq::<u8>::empty());
        }
        return VarintRead::Done((v % 0x10000) as u16, start + 3);
    }
    VarintRead::Long
}

/// Encodes `value` as a LEB128 varint of one to three bytes.
pub fn convert_to_leb128(value: u16) -> (r: Vec<u8>)
    ensures
        r@ == to_leb128_spec(value),
{
    let mut result: Vec<u8> = Vec::new();
    if value < 128 {
        result.push(value as u8);
        proof {
            assert(result@ =~= to_leb128_spec(value));
        }
        return result;
    }
    if value < 16384 {
        result.push((value % 128 + 128) as u8);
        result.push((value / 128) as u8);
        proof {
            assert(result@ =~= to_leb128_spec(value));
        }
        return result;
    }
    result.push((value % 128 + 128) as u8);
    result.push((value / 128 % 128 + 128) as u8);
    result.push((value / 16384) as u8);
    proof {
        assert(result@ =~= to_leb128_spec(value));
    }
    result
}

/// Decodes the LEB128 varint that begins at `start_pos`. Returns the value
/// and the position one past its last byte, or `None` when the bytes run
/// out before a terminating byte or when three continuation bytes in a row
/// rule a u16 varint out.
pub fn convert_from_leb128(payload: &[u8], start_pos: usize) -> (r: Option<(u16, usize)>)
    ensures
        varint_complete(payload@, start_pos as int) ==> r == Some(
            (
                varint_value(payload@, start_pos as int),
                varint_end(payload@, start_pos as int) as usize,
            ),
        ),
        !varint_complete(payload@, start_pos as int) ==> r is None,
{
    match read_varint(payload, start_pos) {
        VarintRead::Done(v, end) => Some((v, end)),
        VarintRead::Short => None,
        VarintRead::Long => None,
    }
}

/// The varint at `start` is read from the bytes `to_leb128_spec` lays
/// down, wherever they sit and whatever follows them.
pub proof fn lemma_varint_at(s: Seq<u8>, start: int, v: u16)
    requires
        0 <= start,
        start + leb128_len(v) <= s.len(),
        s.subrange(start, start + leb128_len(v)) == to_leb128_spec(v),
    ensures
        varint_complete(s, start),
        !varint_overlong(s, start),
        varint_end(s, start) == start + leb128_len(v),
        varint_value(s, start) == v,
{
    let enc = to_leb128_spec(v);
    let sub = s.subrange(start, start + leb128_len(v));
    if v < 128 {
        assert(s[start] == enc[0]);
        let g = s.subrange(start, start + 1);
        assert(g =~= seq![s[start]]);
        lemma_varint_val_unfold(g);
        assert(g.subrange(1, 1) =~= Seq::<u8>::empty());
    } else if v < 16384 {
        assert(s[start] == enc[0]);
        assert(s[start + 1] == enc[1]);
        lemma_fundamental_div_mod(v as int, 128);
        assert(s[start] == (v % 128 + 128) as u8);
        assert(s[start + 1] == (v / 128) as u8);
        let g = s.subrange(start, start + 2);
        assert(g =~= seq![s[start], s[start + 1]]);
        lemma_varint_val_unfold(g);
        let g1 = g.subrange(1, 2);
        assert(g1 =~= seq![s[start + 1]]);
        lemma_varint_val_unfold(g1);
        assert(g1.subrange(1, 1) =~= Seq::<u8>::empty());
        assert(varint_val(g) == (v % 128) + 128 * (v / 128));
    } else {
        assert(s[start] == enc[0]);
        assert(s[start + 1] == enc[1]);
        assert(s[start + 2] == enc[2]);
        lemma_fundamental_div_mod(v as int, 128);
        lemma_fundamental_div_mod(v as int / 128, 128);
        lemma_div_denominator(v as int, 128, 128);
        assert(v as int / 128 / 128 == v as int / 16384);
        let g = s.subrange(start, start + 3);
        assert(g =~= seq![s[start], s[start + 1], s[start + 2]]);
        lemma_varint_val_unfold(g);
        let g1 = g.subrange(1, 3);
        assert(g1 =~= seq![s[start + 1], s[start + 2]]);
        lemma_varint_val_unfold(g1);
        let g2 = g1.subrange(1, 2);
        assert(g2 =~= seq![s[start + 2]]);
        lemma_varint_val_unfold(g2);
        assert(g2.subrange(1, 1) =~= Seq::<u8>::empty());
        assert(varint_val(g) == (v % 128) + 128 * ((v / 128) % 128 + 128 * (v / 16384)));
    }
}

/// LEB128 round trip: decoding the encoding of any u16 yields the value
/// back, consuming exactly the encoded bytes.
pub proof fn lemma_leb128_round_trip(v: u16)
    ensures
        to_leb128_spec(v).len() == leb128_len(v),
        varint_complete(to_leb128_spec(v), 0),
        varint_end(to_leb128_spec(v), 0) == leb128_len(v),
        varint_value(to_leb128_spec(v), 0) == v,
{
    let enc = to_leb128_spec(v);
    assert(enc.subrange(0, leb128_len(v)) =~= enc);
    lemma_varint_at(enc, 0, v);
}

/// The u16 whose big-endian bytes are `hi`, `lo`.
pub open spec fn be16(hi: u8, lo: u8) -> u16 {
    (256 * (hi as int) + (lo as int)) as u16
}

/// The two big-endian bytes of `v`.
pub open spec fn be16_bytes(v: u16) -> Seq<u8> {
    seq![(v / 256) as u8, (v % 256) as u8]
}

/// The canonical payload shape shared by both envelopes:
/// `type_id (u16 BE) + length (u16 BE) + body`.
pub open spec fn canonical_payload(type_id: u16, len: u16, body: Seq<u8>) -> Seq<u8> {
    be16_bytes(type_id) + be16_bytes(len) + body
}

/// Canonical header round trip: the type id and the length read back out
/// of the first four bytes of a canonical payload are the ones it was
/// built with, and the body follows them unchanged.
pub proof fn lemma_canonical_header_round_trip(type_id: u16, len: u16, body: Seq<u8>)
    ensures
        ({
            let f = canonical_payload(type_id, len, body);
            &&& f.len() == 4 + body.len()
            &&& 256 * (f[0] as int) + (f[1] as int) == type_id
            &&& 256 * (f[2] as int) + (f[3] as int) == len
            &&& f.skip(4) == body
        }),
{
    lemma_fundamental_div_mod(type_id as int, 256);
    lemma_fundamental_div_mod(len as int, 256);
    assert(canonical_payload(type_id, len, body).skip(4) =~= body);
}

/// A whole plaintext frame:
/// `0x00 + leb128(len) + leb128(type_id) + body`.
pub open spec fn plain_frame(type_id: u16, len: u16, body: Seq<u8>) -> Seq<u8> {
    seq![PLAIN_PREAMBLE] + to_leb128_spec(len) + to_leb128_spec(type_id) + body
}

/// Builds a plaintext frame out of a canonical payload. The first four
/// bytes carry the type id and the body length, each u16 big-endian; the
/// encoder re-encodes both as varints and strips the header.
pub fn create_frame(payload: &[u8]) -> (r: Result<Vec<u8>, ClientError>)
    ensures
        payload@.len() < 4 ==> (r matches Err(ClientError::Stream(StreamError::InvalidFrame {
            reason,
        })) && reason@ == "Payload must be at least 4 bytes long"@),
        payload@.len() >= 4 ==> (r matches Ok(f) && f@ == plain_frame(
            be16(payload@[0], payload@[1]),
            be16(payload@[2], payload@[3]),
            payload@.skip(4),
        )),
{
    if payload.len() < 4 {
        return Err(
            ClientError::Stream(
                StreamError::InvalidFrame {
                    reason: String::from_str("Payload must be at least 4 bytes long"),
                },
            ),
        );
    }
    let type_id: u16 = 256 * (payload[0] as u16) + (payload[1] as u16);
    let frame_len: u16 = 256 * (payload[2] as u16) + (payload[3] as u16);
    let mut frame: Vec<u8> = Vec::new();
    frame.push(PLAIN_PREAMBLE);
    let mut len_bytes = convert_to_leb128(frame_len);
    frame.append(&mut len_bytes);
    let mut type_bytes = convert_to_leb128(type_id);
    frame.append(&mut type_bytes);
    let mut i: usize = 4;
    while i < payload.len()
        invariant
            4 <= i <= payload@.len(),
            frame@ == seq![PLAIN_PREAMBLE] + to_leb128_spec(frame_len) + to_leb128_spec(type_id)
                + payload@.subrange(4, i as int),
        decreases payload@.len() - i,
    {
        frame.push(payload[i]);
        proof {
            assert(payload@.subrange(4, i + 1) =~= payload@.subrange(4, i as int).push(
                payload@[i as int],
            ));
            assert(frame@ =~= seq![PLAIN_PREAMBLE] + to_leb128_spec(frame_len) + to_leb128_spec(
                type_id,
            ) + payload@.subrange(4, i + 1));
        }
        i = i + 1;
    }
    proof {
        assert(payload@.subrange(4, payload@.len() as int) =~= payload@.skip(4));
    }
    Ok(frame)
}

/// The header of a plaintext frame is whole: preamble `0x00` and both
/// varints terminated.
pub open spec fn plain_hdr_complete(b: Seq<u8>) -> bool {
    &&& b.len() >= 3
    &&& b[0] == PLAIN_PREAMBLE
    &&& varint_complete(b, 1)
    &&& varint_complete(b, varint_end(b, 1))
}

/// The decoded body length of the frame at the head of `b`.
pub open spec fn plain_len(b: Seq<u8>) -> u16 {
    varint_value(b, 1)
}

/// The decoded type id of the frame at the head of `b`.
pub open spec fn plain_type(b: Seq<u8>) -> u16 {
    varint_value(b, varint_end(b, 1))
}

/// Position of the first body byte of the frame at the head of `b`.
pub open spec fn plain_body_start(b: Seq<u8>) -> int {
    varint_end(b, varint_end(b, 1))
}

/// A whole plaintext frame sits at the head of `b`.
pub open spec fn plain_frame_ready(b: Seq<u8>) -> bool {
    plain_hdr_complete(b) && b.len() >= plain_body_start(b) + plain_len(b)
}

/// One of the two header varints is overlong, so the frame can never
/// become whole.
pub open spec fn plain_malformed(b: Seq<u8>) -> bool {
    &&& b.len() >= 3
    &&& b[0] == PLAIN_PREAMBLE
    &&& (varint_overlong(b, 1) || (varint_complete(b, 1) && varint_overlong(b, varint_end(b, 1))))
}

/// Drains one whole plaintext frame from the head of the buffer and
/// returns its canonical payload. When fewer bytes than a whole frame are
/// present, returns `None` and leaves the buffer untouched.
pub fn read_frame_from_buffer(buffer: &mut Vec<u8>) -> (r: Result<Option<Vec<u8>>, ClientError>)
    ensures
        old(buffer)@.len() < 3 ==> r == Ok::<Option<Vec<u8>>, ClientError>(None)
            && final(buffer)@ == old(buffer)@,
        old(buffer)@.len() >= 3 && old(buffer)@[0] == 0x01 ==> r == Err::<
            Option<Vec<u8>>,
            ClientError,
        >(ClientError::Protocol(ProtocolError::UnexpectedEncryption)) && final(buffer)@ == old(
            buffer,
        )@,
        old(buffer)@.len() >= 3 && old(buffer)@[0] != 0x00 && old(buffer)@[0] != 0x01 ==> (
        r matches Err(ClientError::Stream(StreamError::InvalidFrame { reason })) && reason@
            == "Invalid preamble: "@ + dec_str(old(buffer)@[0] as int)) && final(buffer)@ == old(
            buffer,
        )@,
        plain_malformed(old(buffer)@) ==> (r matches Err(ClientError::Stream(
            StreamError::InvalidFrame { .. },
        ))) && final(buffer)@ == old(buffer)@,
        old(buffer)@.len() >= 3 && old(buffer)@[0] == 0x00 && !plain_malformed(old(buffer)@)
            && !plain_frame_ready(old(buffer)@) ==> r == Ok::<Option<Vec<u8>>, ClientError>(None)
            && final(buffer)@ == old(buffer)@,
        plain_frame_ready(old(buffer)@) ==> (r matches Ok(Some(f)) && {
            let b = old(buffer)@;
            let body = b.subrange(plain_body_start(b), plain_body_start(b) + plain_len(b));
            &&& f@ == canonical_payload(plain_type(b), plain_len(b), body)
            &&& final(buffer)@ == b.skip(plain_body_start(b) + plain_len(b))
        }),
{
    if buffer.len() < 3 {
        return Ok(None);
    }
    let preamble = buffer[0];
    if preamble == 0x01 {
        return Err(ClientError::Protocol(ProtocolError::UnexpectedEncryption));
    }
    if preamble != PLAIN_PREAMBLE {
        return Err(
            ClientError::Stream(
                StreamError::InvalidFrame {
                    reason: String::from_str("Invalid preamble: ").concat(
                        u16_dec_str(preamble as u16).as_str(),
                    ),
                },
            ),
        );
    }
    let (frame_len, after_len) = match read_varint(buffer.as_slice(), 1) {
        VarintRead::Done(v, end) => (v, end),
        VarintRead::Short => { return Ok(None) },
        VarintRead::Long => {
            return Err(
                ClientError::Stream(
                    StreamError::InvalidFrame {
                        reason: String::from_str("Malformed length varint"),
                    },
                ),
            );
        },
    };
    let (type_id, body_start) = match read_varint(buffer.as_slice(), after_len) {
        VarintRead::Done(v, end) => (v, end),
        VarintRead::Short => { return Ok(None) },
        VarintRead::Long => {
            return Err(
                ClientError::Stream(
                    StreamError::InvalidFrame {
                        reason: String::from_str("Malformed type id varint"),
                    },
                ),
            );
        },
    };
    let body_len = frame_len as usize;
    if buffer.len() - body_start < body_len {
        return Ok(None);
    }
    let mut out: Vec<u8> = Vec::new();
    out.push((type_id / 256) as u8);
    out.push((type_id % 256) as u8);
    out.push((frame_len / 256) as u8);
    out.push((frame_len % 256) as u8);
    out.extend_from_slice(&buffer.as_slice()[body_start..body_start + body_len]);
    let tail = buffer.split_off(body_start + body_len);
    *buffer = tail;
    proof {
        let b = old(buffer)@;
        let body = b.subrange(plain_body_start(b), plain_body_start(b) + plain_len(b));
        assert(out@ =~= canonical_payload(plain_type(b), plain_len(b), body));
        assert(final(buffer)@ =~= b.skip(plain_body_start(b) + plain_len(b)));
    }
    Ok(Some(out))
}

/// Plaintext frame round trip: a frame built out of a canonical payload
/// decodes back to the very same type id, length and body, and consumes
/// the whole frame.
pub proof fn lemma_plain_frame_round_trip(type_id: u16, len: u16, body: Seq<u8>)
    requires
        body.len() == len,
        body.len() <= 65531,
    ensures
        ({
            let f = plain_frame(type_id, len, body);
            &&& f.len() >= 3
            &&& f[0] == 0x00
            &&& !plain_malformed(f)
            &&& plain_frame_ready(f)
            &&& plain_type(f) == type_id
            &&& plain_len(f) == len
            &&& f.subrange(plain_body_start(f), plain_body_start(f) + len) == body
            &&& f.skip(plain_body_start(f) + len) == Seq::<u8>::empty()
        }),
{
    let f = plain_frame(type_id, len, body);
    let l1 = leb128_len(len);
    let l2 = leb128_len(type_id);
    assert(f.subrange(1, 1 + l1) =~= to_leb128_spec(len));
    lemma_varint_at(f, 1, len);
    assert(f.subrange(1 + l1, 1 + l1 + l2) =~= to_leb128_spec(type_id));
    lemma_varint_at(f, 1 + l1, type_id);
    assert(f.subrange(1 + l1 + l2, 1 + l1 + l2 + len) =~= body);
    assert(f.skip(1 + l1 + l2 + len) =~= Seq::<u8>::empty());
}

} // verus!
