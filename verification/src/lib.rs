//! Client-side core of the ESPHome native API: wire framing for the
//! plaintext and Noise-encrypted envelopes, the Noise handshake sequence,
//! the message registry, and the connection-setup state machine.

pub mod client;
pub mod decimal;
pub mod error;
pub mod proto;

use vstd::prelude::*;

verus! {

/// The eight big-endian bytes of a u64.
pub open spec fn be64_bytes(v: u64) -> Seq<u8> {
    seq![
        (v / 0x100000000000000 % 256) as u8,
        (v / 0x1000000000000 % 256) as u8,
        (v / 0x10000000000 % 256) as u8,
        (v / 0x100000000 % 256) as u8,
        (v / 0x1000000 % 256) as u8,
        (v / 0x10000 % 256) as u8,
        (v / 0x100 % 256) as u8,
        (v % 256) as u8,
    ]
}

fn push_be64(out: &mut Vec<u8>, v: u64)
    ensures
        final(out)@ == old(out)@ + be64_bytes(v),
{
    out.push((v / 0x100000000000000 % 256) as u8);
    out.push((v / 0x1000000000000 % 256) as u8);
    out.push((v / 0x10000000000 % 256) as u8);
    out.push((v / 0x100000000 % 256) as u8);
    out.push((v / 0x1000000 % 256) as u8);
    out.push((v / 0x10000 % 256) as u8);
    out.push((v / 0x100 % 256) as u8);
    out.push((v % 256) as u8);
    proof {
        assert(final(out)@ =~= old(out)@ + be64_bytes(v));
    }
}

/// Converts a GATT UUID given as two 64-bit halves, high half first, into
/// its 16-byte big-endian representation. Any other number of halves is
/// rejected.
pub fn convert_gatt_uuid(uuid: &[u64]) -> (r: Result<Vec<u8>, &'static str>)
    ensures
        uuid@.len() == 2 ==> (r matches Ok(b) && b@ == be64_bytes(uuid@[0]) + be64_bytes(
            uuid@[1],
        )),
        uuid@.len() != 2 ==> r == Result::<Vec<u8>, &'static str>::Err(
            "UUID must be exactly 2 u64 values",
        ),
{
    if uuid.len() != 2 {
        return Err("UUID must be exactly 2 u64 values");
    }
    let mut out: Vec<u8> = Vec::new();
    push_be64(&mut out, uuid[0]);
    push_be64(&mut out, uuid[1]);
    proof {
        assert(out@ =~= be64_bytes(uuid@[0]) + be64_bytes(uuid@[1]));
    }
    Ok(out)
}

} // verus!
