//! Length-delimited payloads and field skipping: the second layer of the
//! wire format, shared by every message codec.

use vstd::prelude::*;
use crate::messages::DecodeError;
use crate::varint::{
    lemma_encode_varint_len, lemma_varint_round_trip, spec_encode_varint, spec_take_varint,
    take_varint,
};

verus! {

/// A payload with its varint length in front, as it stands on the wire.
pub open spec fn spec_encode_len_prefixed(payload: Seq<u8>) -> Seq<u8> {
    spec_encode_varint(payload.len() as u64) + payload
}

/// Reads one length-delimited payload from the front of `b`: the payload
/// bytes and the count of bytes consumed, or the exact error.
pub open spec fn spec_take_len(b: Seq<u8>) -> Result<(Seq<u8>, nat), DecodeError> {
    match spec_take_varint(b) {
        Err(e) => Err(e),
        Ok((len, kn)) => if b.len() - kn < len {
            Err(DecodeError::Truncated)
        } else {
            Ok((b.subrange(kn as int, kn + len), (kn + len) as nat))
        },
    }
}

/// Reads one length-delimited payload that starts at `pos` in `b`. On
/// success, the payload is `b[start..start + len]` and `consumed` bytes
/// (length prefix included) were read.
pub fn take_len(b: &[u8], pos: usize) -> (r: Result<(usize, usize), DecodeError>)
    requires
        pos <= b@.len(),
    ensures
        match r {
            Ok((start, len)) => {
                &&& pos < start
                &&& start + len <= b@.len()
                &&& spec_take_len(b@.skip(pos as int)) == Ok::<(Seq<u8>, nat), DecodeError>(
                    (b@.subrange(start as int, start + len), (start + len - pos) as nat),
                )
            },
            Err(e) => spec_take_len(b@.skip(pos as int)) == Err::<(Seq<u8>, nat), DecodeError>(e),
        },
{
    match take_varint(b, pos) {
        Err(e) => Err(e),
        Ok((len, kn)) => {
            let remaining = b.len() - (pos + kn);
            if (remaining as u64) < len {
                proof {
                    assert(b@.skip(pos as int).len() - kn < len);
                }
                Err(DecodeError::Truncated)
            } else {
                let start = pos + kn;
                proof {
                    assert(b@.skip(pos as int).subrange(kn as int, kn + len) =~= b@.subrange(
                        start as int,
                        start + len,
                    ));
                }
                Ok((start, len as usize))
            }
        },
    }
}

/// Reading a length-prefixed payload back from the front of a stream yields
/// exactly the payload, whatever follows it.
pub proof fn lemma_len_round_trip(payload: Seq<u8>, rest: Seq<u8>)
    requires
        payload.len() <= u64::MAX,
    ensures
        spec_take_len(spec_encode_len_prefixed(payload) + rest) == Ok::<(Seq<u8>, nat),
            DecodeError>((payload, spec_encode_len_prefixed(payload).len())),
{
    let len = payload.len() as u64;
    let enc = spec_encode_varint(len);
    let b = spec_encode_len_prefixed(payload) + rest;
    assert(b =~= enc + (payload + rest));
    lemma_varint_round_trip(len, payload + rest);
    lemma_encode_varint_len(len);
    assert(b.subrange(enc.len() as int, enc.len() + len) =~= payload);
}

/// How many value bytes an unknown field of wire type `wt` occupies after
/// its key, or the exact error on an unsupported wire type.
pub open spec fn spec_skip_field(b: Seq<u8>, wt: u64) -> Result<nat, DecodeError> {
    if wt == 0 {
        match spec_take_varint(b) {
            Err(e) => Err(e),
            Ok((v, n)) => Ok(n),
        }
    } else if wt == 1 {
        if b.len() < 8 {
            Err(DecodeError::Truncated)
        } else {
            Ok(8)
        }
    } else if wt == 2 {
        match spec_take_len(b) {
            Err(e) => Err(e),
            Ok((p, n)) => Ok(n),
        }
    } else if wt == 5 {
        if b.len() < 4 {
            Err(DecodeError::Truncated)
        } else {
            Ok(4)
        }
    } else {
        Err(DecodeError::InvalidWireType)
    }
}

/// Skips the value of an unknown field of wire type `wt` that starts at
/// `pos` in `b`, returning how many bytes it occupied.
pub fn skip_field(b: &[u8], pos: usize, wt: u64) -> (r: Result<usize, DecodeError>)
    requires
        pos <= b@.len(),
    ensures
        match r {
            Ok(n) => {
                &&& pos + n <= b@.len()
                &&& spec_skip_field(b@.skip(pos as int), wt) == Ok::<nat, DecodeError>(n as nat)
            },
            Err(e) => spec_skip_field(b@.skip(pos as int), wt) == Err::<nat, DecodeError>(e),
        },
{
    if wt == 0 {
        match take_varint(b, pos) {
            Err(e) => Err(e),
            Ok((_v, n)) => Ok(n),
        }
    } else if wt == 1 {
        if b.len() - pos < 8 {
            Err(DecodeError::Truncated)
        } else {
            Ok(8)
        }
    } else if wt == 2 {
        match take_len(b, pos) {
            Err(e) => Err(e),
            Ok((start, len)) => {
                let blen = b.len();
                proof {
                    assert(start + len <= blen);
                }
                Ok(start + len - pos)
            },
        }
    } else if wt == 5 {
        if b.len() - pos < 4 {
            Err(DecodeError::Truncated)
        } else {
            Ok(4)
        }
    } else {
        Err(DecodeError::InvalidWireType)
    }
}

} // verus!
