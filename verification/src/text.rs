//! Conversions the wire format needs: UTF-8 strings and the two's-complement
//! reading of a signed 64-bit integer.

use vstd::prelude::*;
use vstd::utf8::{encode_utf8, valid_utf8};

verus! {

/// The unsigned 64-bit two's-complement reading of `a`, as the wire carries
/// a signed 64-bit integer.
pub open spec fn spec_u64_of_i64(a: i64) -> u64 {
    if a >= 0 {
        a as u64
    } else {
        (a + 0x1_0000_0000_0000_0000) as u64
    }
}

/// The signed reading of an unsigned 64-bit two's-complement value.
pub open spec fn spec_i64_of_u64(v: u64) -> i64 {
    if v < 0x8000_0000_0000_0000 {
        v as i64
    } else {
        (v - 0x1_0000_0000_0000_0000) as i64
    }
}

/// The two readings undo each other.
pub proof fn lemma_i64_round_trip(a: i64)
    ensures
        spec_i64_of_u64(spec_u64_of_i64(a)) == a,
{
}

/// The unsigned two's-complement reading of `a`, computed without overflow.
pub fn u64_of_i64(a: i64) -> (r: u64)
    ensures
        r == spec_u64_of_i64(a),
{
    if a >= 0 {
        a as u64
    } else {
        let m: u64 = if a == i64::MIN {
            0x8000_0000_0000_0000
        } else {
            (-a) as u64
        };
        (u64::MAX - m) + 1
    }
}

/// The signed reading of `v`, computed without overflow.
pub fn i64_of_u64(v: u64) -> (r: i64)
    ensures
        r == spec_i64_of_u64(v),
{
    if v < 0x8000_0000_0000_0000 {
        v as i64
    } else {
        let m: u64 = u64::MAX - v;
        -(m as i64) - 1
    }
}

/// A character encodes to at most four UTF-8 bytes.
pub proof fn lemma_encode_utf8_len(s: Seq<char>)
    ensures
        encode_utf8(s).len() <= 4 * s.len(),
    decreases s.len(),
{
    if s.len() == 0 {
    } else {
        lemma_encode_utf8_len(s.drop_first());
    }
}

/// Relies on `String::from_utf8`: it returns `Ok` exactly when the bytes are
/// valid UTF-8, and the returned string's UTF-8 bytes are the input.
#[verifier::external_body]
pub(crate) fn bytes_to_string(b: &[u8]) -> (r: Option<String>)
    ensures
        match r {
            Some(s) => encode_utf8(s@) =~= b@,
            None => !valid_utf8(b@),
        },
{
    String::from_utf8(b.to_vec()).ok()
}

} // verus!
