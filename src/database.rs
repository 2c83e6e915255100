//! Database flavoured values.

use vstd::prelude::*;
use crate::random::random_upto;
use crate::text::{hex_text, push_all, push_hex, string_of};

verus! {

/// The lower-case hexadecimal text of `n`, at least two digits wide.
pub open spec fn hex2(n: nat) -> Seq<char> {
    let h = hex_text(n);
    if h.len() < 2 { seq!['0'] + h } else { h }
}

/// Two hexadecimal digits for each byte, in order.
pub open spec fn bytes_hex(b: Seq<u8>) -> Seq<char>
    decreases b.len(),
{
    if b.len() == 0 {
        Seq::empty()
    } else {
        bytes_hex(b.drop_last()) + hex2(b.last() as nat)
    }
}

/// An object id: the timestamp's two's-complement bits in hexadecimal (at
/// least two digits), then the random bytes in hexadecimal.
pub open spec fn object_id_spec(timestamp: i64, bytes: Seq<u8>) -> Seq<char> {
    hex2((timestamp as u64) as nat) + bytes_hex(bytes)
}

fn push_hex2(out: &mut Vec<char>, n: u64)
    ensures
        final(out)@ == old(out)@ + hex2(n as nat),
{
    let mut h: Vec<char> = Vec::new();
    push_hex(&mut h, n);
    assert(h@ =~= hex_text(n as nat));
    if h.len() < 2 {
        out.push('0');
    }
    push_all(out, &h);
}

/// The object id text for a timestamp (seconds since the epoch) and random bytes.
pub fn object_id_text(timestamp: i64, bytes: &Vec<u8>) -> (r: String)
    ensures
        r@ == object_id_spec(timestamp, bytes@),
{
    let mut out: Vec<char> = Vec::new();
    push_hex2(&mut out, timestamp as u64);
    let mut i: usize = 0;
    while i < bytes.len()
        invariant
            i <= bytes@.len(),
            out@ == hex2((timestamp as u64) as nat) + bytes_hex(bytes@.subrange(0, i as int)),
        decreases bytes@.len() - i,
    {
        assert(bytes@.subrange(0, i + 1).drop_last() == bytes@.subrange(0, i as int));
        push_hex2(&mut out, bytes[i] as u64);
        i += 1;
    }
    assert(bytes@.subrange(0, bytes@.len() as int) == bytes@);
    string_of(&out)
}

/// Relies on chrono's `Utc::now` and `DateTime::timestamp`: the current time in
/// whole seconds since the Unix epoch; nothing is promised of its value.
#[verifier::external_body]
fn now_timestamp() -> (r: i64) {
    chrono::Utc::now().timestamp()
}

/// A MongoDB-style object id: the current time and eight random bytes, in hexadecimal.
pub fn mongo_objectid() -> (r: String)
    ensures
        exists|timestamp: i64, bytes: Seq<u8>| bytes.len() == 8 && r@ == #[trigger] object_id_spec(timestamp, bytes),
{
    let timestamp = now_timestamp();
    let mut bytes: Vec<u8> = Vec::new();
    let mut k: usize = 0;
    while k < 8
        invariant
            k <= 8,
            bytes@.len() == k,
        decreases 8 - k,
    {
        bytes.push(random_upto(255) as u8);
        k += 1;
    }
    object_id_text(timestamp, &bytes)
}

} // verus!
