//! The handler set: one pure function per payload variant, each producing
//! proof bytes deterministically from the typed fields. The proof bytes
//! stand in for a real cryptographic computation behind the same interface.

use vstd::prelude::*;
use vstd::utf8::encode_utf8;

verus! {

/// The decimal digits of `n`, as ASCII bytes, most significant first.
pub open spec fn spec_decimal_bytes(n: nat) -> Seq<u8>
    decreases n,
{
    if n < 10 {
        seq![(48 + n) as u8]
    } else {
        spec_decimal_bytes(n / 10) + seq![(48 + n % 10) as u8]
    }
}

/// The decimal rendering of a signed 64-bit integer, minus sign included.
pub open spec fn spec_i64_decimal(a: i64) -> Seq<u8> {
    if a >= 0 {
        spec_decimal_bytes(a as nat)
    } else {
        seq![45u8] + spec_decimal_bytes((-(a as int)) as nat)
    }
}

/// Proof bytes of the identity handler: a fixed prefix tagging the claimed
/// attribute.
pub open spec fn spec_identity_proof(attribute_id: Seq<char>) -> Seq<u8> {
    encode_utf8("identity_proof_for_"@) + encode_utf8(attribute_id)
}

/// Proof bytes of the governance handler: a fixed prefix tagging the
/// proposal the vote share belongs to.
pub open spec fn spec_governance_proof(proposal_id: Seq<char>) -> Seq<u8> {
    encode_utf8("mpc_vote_share_for_"@) + encode_utf8(proposal_id)
}

/// Proof bytes of the income handler: a fixed prefix tagging the receiver
/// and the amount in decimal.
pub open spec fn spec_income_proof(receiver_pubkey: Seq<char>, amount: i64) -> Seq<u8> {
    encode_utf8("zk_income_proof_for_"@) + encode_utf8(receiver_pubkey) + encode_utf8("_amount_"@)
        + spec_i64_decimal(amount)
}

/// Proof bytes of the health handler and of the default (no payload) case:
/// a fixed placeholder.
pub open spec fn spec_placeholder_proof() -> Seq<u8> {
    encode_utf8("mock_zk_proof_data"@)
}

/// Appends the decimal digits of `n`.
fn push_decimal(out: &mut Vec<u8>, n: u64)
    ensures
        final(out)@ =~= old(out)@ + spec_decimal_bytes(n as nat),
    decreases n,
{
    if n >= 10 {
        push_decimal(out, n / 10);
    }
    out.push(48 + (n % 10) as u8);
}

/// The decimal rendering of `a`, computed without overflow even at the
/// smallest representable value.
pub fn i64_decimal(a: i64) -> (out: Vec<u8>)
    ensures
        out@ =~= spec_i64_decimal(a),
{
    let mut out: Vec<u8> = Vec::new();
    if a >= 0 {
        push_decimal(&mut out, a as u64);
    } else {
        out.push(45);
        let m: u64 = if a == i64::MIN {
            0x8000_0000_0000_0000
        } else {
            (-a) as u64
        };
        proof {
            assert(m as nat == (-(a as int)) as nat);
        }
        push_decimal(&mut out, m);
    }
    out
}

/// The identity handler's proof bytes for a validated attribute.
pub fn identity_proof(attribute_id: &str) -> (out: Vec<u8>)
    ensures
        out@ =~= spec_identity_proof(attribute_id@),
{
    let mut out: Vec<u8> = Vec::new();
    out.extend_from_slice("identity_proof_for_".as_bytes());
    out.extend_from_slice(attribute_id.as_bytes());
    out
}

/// The governance handler's proof bytes: a mock vote share for the
/// proposal.
pub fn governance_proof(proposal_id: &str) -> (out: Vec<u8>)
    ensures
        out@ =~= spec_governance_proof(proposal_id@),
{
    let mut out: Vec<u8> = Vec::new();
    out.extend_from_slice("mpc_vote_share_for_".as_bytes());
    out.extend_from_slice(proposal_id.as_bytes());
    out
}

/// The income handler's proof bytes: a mock proof over the receiver and the
/// amount.
pub fn income_proof(receiver_pubkey: &str, amount: i64) -> (out: Vec<u8>)
    ensures
        out@ =~= spec_income_proof(receiver_pubkey@, amount),
{
    let mut out: Vec<u8> = Vec::new();
    out.extend_from_slice("zk_income_proof_for_".as_bytes());
    out.extend_from_slice(receiver_pubkey.as_bytes());
    out.extend_from_slice("_amount_".as_bytes());
    let digits = i64_decimal(amount);
    out.extend_from_slice(digits.as_slice());
    out
}

/// The placeholder proof bytes of the health handler and the default case.
pub fn placeholder_proof() -> (out: Vec<u8>)
    ensures
        out@ =~= spec_placeholder_proof(),
{
    let mut out: Vec<u8> = Vec::new();
    out.extend_from_slice("mock_zk_proof_data".as_bytes());
    out
}

} // verus!
