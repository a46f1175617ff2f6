//! Base-128 variable-length integers: the primitive the wire format is
//! built on. Low seven bits come first; a set high bit continues the value.
//! Decoding accepts at most ten bytes, so it is bounded on every input.

use vstd::prelude::*;
use crate::messages::DecodeError;

verus! {

/// The wire bytes of `n` as a base-128 varint, least-significant group first.
pub open spec fn spec_encode_varint(n: u64) -> Seq<u8>
    decreases n,
{
    if n < 128 {
        seq![n as u8]
    } else {
        seq![(n % 128 + 128) as u8] + spec_encode_varint(n / 128)
    }
}

/// Reads one varint from the front of `b` with at most `fuel` bytes:
/// the value and the count of bytes consumed, or the exact error.
pub open spec fn spec_take_varint_rec(b: Seq<u8>, fuel: nat) -> Result<(u64, nat), DecodeError>
    decreases fuel,
{
    if fuel == 0 {
        Err(DecodeError::VarintTooLong)
    } else if b.len() == 0 {
        Err(DecodeError::Truncated)
    } else if b[0] < 128 {
        Ok((b[0] as u64, 1))
    } else {
        match spec_take_varint_rec(b.skip(1), (fuel - 1) as nat) {
            Err(e) => Err(e),
            Ok((hi, n)) => if hi < 0x0200_0000_0000_0000 {
                Ok((((b[0] - 128) + 128 * hi) as u64, n + 1))
            } else {
                Err(DecodeError::VarintTooLong)
            },
        }
    }
}

/// Reads one varint from the front of `b`, limited to ten bytes as the wire
/// format demands.
pub open spec fn spec_take_varint(b: Seq<u8>) -> Result<(u64, nat), DecodeError> {
    spec_take_varint_rec(b, 10)
}

/// Appends the varint encoding of `n` to `out`.
pub fn write_varint(out: &mut Vec<u8>, n: u64)
    ensures
        final(out)@ =~= old(out)@ + spec_encode_varint(n),
    decreases n,
{
    if n < 128 {
        out.push(n as u8);
    } else {
        out.push((n % 128 + 128) as u8);
        write_varint(out, n / 128);
    }
}

fn take_varint_rec(b: &[u8], pos: usize, fuel: u64) -> (r: Result<(u64, usize), DecodeError>)
    requires
        pos <= b@.len(),
    ensures
        match r {
            Ok((v, n)) => {
                &&& spec_take_varint_rec(b@.skip(pos as int), fuel as nat) == Ok::<(u64, nat),
                    DecodeError>((v, n as nat))
                &&& 1 <= n
                &&& pos + n <= b@.len()
            },
            Err(e) => spec_take_varint_rec(b@.skip(pos as int), fuel as nat) == Err::<(u64, nat),
                DecodeError>(e),
        },
    decreases fuel,
{
    if fuel == 0 {
        Err(DecodeError::VarintTooLong)
    } else if pos == b.len() {
        Err(DecodeError::Truncated)
    } else {
        let byte = b[pos];
        if byte < 128 {
            Ok((byte as u64, 1))
        } else {
            proof {
                assert(b@.skip(pos as int).skip(1) =~= b@.skip(pos as int + 1));
            }
            match take_varint_rec(b, pos + 1, fuel - 1) {
                Err(e) => Err(e),
                Ok((hi, n)) => if hi < 0x0200_0000_0000_0000 {
                    Ok((((byte - 128) as u64) + 128 * hi, n + 1))
                } else {
                    Err(DecodeError::VarintTooLong)
                },
            }
        }
    }
}

/// Reads one varint that starts at `pos` in `b`: the value and the count of
/// bytes consumed, or the exact error that [`spec_take_varint`] names.
pub fn take_varint(b: &[u8], pos: usize) -> (r: Result<(u64, usize), DecodeError>)
    requires
        pos <= b@.len(),
    ensures
        match r {
            Ok((v, n)) => {
                &&& spec_take_varint(b@.skip(pos as int)) == Ok::<(u64, nat), DecodeError>(
                    (v, n as nat),
                )
                &&& 1 <= n
                &&& pos + n <= b@.len()
            },
            Err(e) => spec_take_varint(b@.skip(pos as int)) == Err::<(u64, nat), DecodeError>(e),
        },
{
    take_varint_rec(b, pos, 10)
}

/// A varint is never empty and never longer than ten bytes.
pub proof fn lemma_encode_varint_len(n: u64)
    ensures
        1 <= spec_encode_varint(n).len() <= 10,
    decreases n,
{
    reveal_with_fuel(spec_encode_varint, 11);
    let n1 = n / 128;
    let n2 = n1 / 128;
    let n3 = n2 / 128;
    let n4 = n3 / 128;
    let n5 = n4 / 128;
    let n6 = n5 / 128;
    let n7 = n6 / 128;
    let n8 = n7 / 128;
    let n9 = n8 / 128;
    assert(n9 < 128);
}

/// Decoding undoes encoding: a varint at the front of a stream is read back
/// exactly, whatever follows it.
pub proof fn lemma_varint_round_trip(n: u64, rest: Seq<u8>)
    ensures
        spec_take_varint(spec_encode_varint(n) + rest) == Ok::<(u64, nat), DecodeError>(
            (n, spec_encode_varint(n).len()),
        ),
{
    lemma_encode_varint_len(n);
    lemma_varint_round_trip_rec(n, rest, 10);
}

proof fn lemma_varint_round_trip_rec(n: u64, rest: Seq<u8>, fuel: nat)
    requires
        spec_encode_varint(n).len() <= fuel,
    ensures
        spec_take_varint_rec(spec_encode_varint(n) + rest, fuel) == Ok::<(u64, nat), DecodeError>(
            (n, spec_encode_varint(n).len()),
        ),
    decreases n,
{
    let enc = spec_encode_varint(n);
    if n < 128 {
        assert((enc + rest)[0] == n as u8);
    } else {
        let low = n % 128;
        let hi = n / 128;
        assert(hi < 0x0200_0000_0000_0000);
        lemma_encode_varint_len(n / 128);
        assert((enc + rest).skip(1) =~= spec_encode_varint(n / 128) + rest);
        lemma_varint_round_trip_rec(n / 128, rest, (fuel - 1) as nat);
        assert((enc + rest)[0] == (low + 128) as u8);
        assert(((enc + rest)[0] - 128) + 128 * hi == n as u64);
    }
}

} // verus!
