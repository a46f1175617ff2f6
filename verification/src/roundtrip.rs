//! Round-trip laws: decoding the encoder's bytes gives back exactly the
//! value that was encoded, for every envelope that fits on the wire.

use vstd::prelude::*;
use vstd::utf8::{encode_utf8, encode_utf8_decode_utf8, encode_utf8_valid_utf8};
use crate::messages::{
    DecodeError, GovernanceModel, IdentityModel, IncomeModel, PayloadModel, RequestModel,
    ResponseModel,
};
use crate::decode::{
    spec_decode_governance, spec_decode_governance_fields, spec_decode_identity,
    spec_decode_identity_fields, spec_decode_income, spec_decode_income_fields,
    spec_decode_request, spec_decode_request_fields, spec_decode_response,
    spec_decode_response_fields, spec_governance_default, spec_identity_default,
    spec_income_default, spec_request_default, spec_response_default,
};
use crate::encode::{
    spec_encode_governance, spec_encode_identity, spec_encode_income, spec_encode_payload,
    spec_encode_request, spec_encode_response, KEY_GOVERNANCE, KEY_HEALTH, KEY_IDENTITY,
    KEY_INCOME,
};
use crate::text::{lemma_i64_round_trip, spec_u64_of_i64};
use crate::varint::{lemma_encode_varint_len, lemma_varint_round_trip, spec_encode_varint,
    spec_take_varint};
use crate::wire::{lemma_len_round_trip, spec_encode_len_prefixed, spec_take_len};

verus! {

/// An identity payload small enough to carry on the wire.
pub open spec fn spec_identity_wire_ok(m: IdentityModel) -> bool {
    encode_utf8(m.attribute_id).len() <= u64::MAX && m.encrypted_identity_seed.len() <= u64::MAX
}

/// A governance payload small enough to carry on the wire.
pub open spec fn spec_governance_wire_ok(m: GovernanceModel) -> bool {
    encode_utf8(m.proposal_id).len() <= u64::MAX && encode_utf8(m.vote_choice).len() <= u64::MAX
        && m.identity_signature.len() <= u64::MAX
}

/// An income payload small enough to carry on the wire.
pub open spec fn spec_income_wire_ok(m: IncomeModel) -> bool {
    encode_utf8(m.receiver_pubkey).len() <= u64::MAX
}

/// A request envelope small enough to carry on the wire.
pub open spec fn spec_request_wire_ok(m: RequestModel) -> bool {
    encode_utf8(m.request_id).len() <= u64::MAX && match m.payload {
        None => true,
        Some(PayloadModel::Identity(p)) => spec_identity_wire_ok(p) && spec_encode_identity(
            p,
        ).len() <= u64::MAX,
        Some(PayloadModel::Governance(p)) => spec_governance_wire_ok(p) && spec_encode_governance(
            p,
        ).len() <= u64::MAX,
        Some(PayloadModel::Income(p)) => spec_income_wire_ok(p) && spec_encode_income(p).len()
            <= u64::MAX,
        Some(PayloadModel::Health) => true,
    }
}

/// A response envelope small enough to carry on the wire.
pub open spec fn spec_response_wire_ok(m: ResponseModel) -> bool {
    encode_utf8(m.request_id).len() <= u64::MAX && encode_utf8(m.error_message).len() <= u64::MAX
        && m.proof_data.len() <= u64::MAX
}

/// One length-delimited field at the front of a stream: the key parses, the
/// payload parses, and what follows is exactly the tail.
proof fn lemma_field_step_len(key: u64, payload: Seq<u8>, rest: Seq<u8>)
    requires
        payload.len() <= u64::MAX,
    ensures
        ({
            let b = spec_encode_varint(key) + spec_encode_len_prefixed(payload) + rest;
            let klen = spec_encode_varint(key).len();
            &&& spec_take_varint(b) == Ok::<(u64, nat), DecodeError>((key, klen))
            &&& b.skip(klen as int) =~= spec_encode_len_prefixed(payload) + rest
            &&& spec_take_len(spec_encode_len_prefixed(payload) + rest) == Ok::<(Seq<u8>, nat),
                DecodeError>((payload, spec_encode_len_prefixed(payload).len()))
            &&& (spec_encode_len_prefixed(payload) + rest).skip(
                spec_encode_len_prefixed(payload).len() as int,
            ) =~= rest
            &&& 1 <= klen
            &&& 1 <= spec_encode_len_prefixed(payload).len()
        }),
{
    let b = spec_encode_varint(key) + spec_encode_len_prefixed(payload) + rest;
    assert(b =~= spec_encode_varint(key) + (spec_encode_len_prefixed(payload) + rest));
    lemma_varint_round_trip(key, spec_encode_len_prefixed(payload) + rest);
    lemma_encode_varint_len(key);
    lemma_len_round_trip(payload, rest);
    lemma_encode_varint_len(payload.len() as u64);
}

/// One varint field at the front of a stream: the key parses, the value
/// parses, and what follows is exactly the tail.
proof fn lemma_field_step_u64(key: u64, v: u64, rest: Seq<u8>)
    ensures
        ({
            let b = spec_encode_varint(key) + spec_encode_varint(v) + rest;
            let klen = spec_encode_varint(key).len();
            let vlen = spec_encode_varint(v).len();
            &&& spec_take_varint(b) == Ok::<(u64, nat), DecodeError>((key, klen))
            &&& b.skip(klen as int) =~= spec_encode_varint(v) + rest
            &&& spec_take_varint(spec_encode_varint(v) + rest) == Ok::<(u64, nat), DecodeError>(
                (v, vlen),
            )
            &&& (spec_encode_varint(v) + rest).skip(vlen as int) =~= rest
            &&& 1 <= klen
            &&& 1 <= vlen
        }),
{
    let b = spec_encode_varint(key) + spec_encode_varint(v) + rest;
    assert(b =~= spec_encode_varint(key) + (spec_encode_varint(v) + rest));
    lemma_varint_round_trip(key, spec_encode_varint(v) + rest);
    lemma_encode_varint_len(key);
    lemma_varint_round_trip(v, rest);
    lemma_encode_varint_len(v);
    assert((spec_encode_varint(v) + rest).skip(spec_encode_varint(v).len() as int) =~= rest);
}

/// Decoding undoes encoding for identity payload messages.
pub proof fn lemma_identity_round_trip(m: IdentityModel)
    requires
        spec_identity_wire_ok(m),
    ensures
        spec_decode_identity(spec_encode_identity(m)) == Ok::<IdentityModel, DecodeError>(m),
{
    let p1 = encode_utf8(m.attribute_id);
    let p2 = m.encrypted_identity_seed;
    let t2: Seq<u8> = Seq::empty();
    let t1 = spec_encode_varint(18) + spec_encode_len_prefixed(p2) + t2;
    let t0 = spec_encode_varint(10) + spec_encode_len_prefixed(p1) + t1;
    assert(t0 =~= spec_encode_identity(m));
    encode_utf8_valid_utf8(m.attribute_id);
    encode_utf8_decode_utf8(m.attribute_id);
    lemma_field_step_len(10, p1, t1);
    lemma_field_step_len(18, p2, t2);
    let acc0 = spec_identity_default();
    let acc1 = IdentityModel { attribute_id: m.attribute_id, ..acc0 };
    let acc2 = IdentityModel { encrypted_identity_seed: p2, ..acc1 };
    let fuel0 = t0.len();
    assert(spec_decode_identity_fields(t0, acc0, fuel0) == spec_decode_identity_fields(
        t1,
        acc1,
        (fuel0 - 1) as nat,
    ));
    assert(spec_decode_identity_fields(t1, acc1, (fuel0 - 1) as nat)
        == spec_decode_identity_fields(t2, acc2, (fuel0 - 2) as nat));
    assert(spec_decode_identity_fields(t2, acc2, (fuel0 - 2) as nat) == Ok::<IdentityModel,
        DecodeError>(acc2));
    assert(acc2 =~= m);
}

/// Decoding undoes encoding for governance payload messages.
pub proof fn lemma_governance_round_trip(m: GovernanceModel)
    requires
        spec_governance_wire_ok(m),
    ensures
        spec_decode_governance(spec_encode_governance(m)) == Ok::<GovernanceModel, DecodeError>(m),
{
    let p1 = encode_utf8(m.proposal_id);
    let p2 = encode_utf8(m.vote_choice);
    let p3 = m.identity_signature;
    let t3: Seq<u8> = Seq::empty();
    let t2 = spec_encode_varint(26) + spec_encode_len_prefixed(p3) + t3;
    let t1 = spec_encode_varint(18) + spec_encode_len_prefixed(p2) + t2;
    let t0 = spec_encode_varint(10) + spec_encode_len_prefixed(p1) + t1;
    assert(t0 =~= spec_encode_governance(m));
    encode_utf8_valid_utf8(m.proposal_id);
    encode_utf8_decode_utf8(m.proposal_id);
    encode_utf8_valid_utf8(m.vote_choice);
    encode_utf8_decode_utf8(m.vote_choice);
    lemma_field_step_len(10, p1, t1);
    lemma_field_step_len(18, p2, t2);
    lemma_field_step_len(26, p3, t3);
    let acc0 = spec_governance_default();
    let acc1 = GovernanceModel { proposal_id: m.proposal_id, ..acc0 };
    let acc2 = GovernanceModel { vote_choice: m.vote_choice, ..acc1 };
    let acc3 = GovernanceModel { identity_signature: p3, ..acc2 };
    let fuel0 = t0.len();
    assert(spec_decode_governance_fields(t0, acc0, fuel0) == spec_decode_governance_fields(
        t1,
        acc1,
        (fuel0 - 1) as nat,
    ));
    assert(spec_decode_governance_fields(t1, acc1, (fuel0 - 1) as nat)
        == spec_decode_governance_fields(t2, acc2, (fuel0 - 2) as nat));
    assert(spec_decode_governance_fields(t2, acc2, (fuel0 - 2) as nat)
        == spec_decode_governance_fields(t3, acc3, (fuel0 - 3) as nat));
    assert(spec_decode_governance_fields(t3, acc3, (fuel0 - 3) as nat) == Ok::<GovernanceModel,
        DecodeError>(acc3));
    assert(acc3 =~= m);
}

/// Decoding undoes encoding for income payload messages.
pub proof fn lemma_income_round_trip(m: IncomeModel)
    requires
        spec_income_wire_ok(m),
    ensures
        spec_decode_income(spec_encode_income(m)) == Ok::<IncomeModel, DecodeError>(m),
{
    let v = spec_u64_of_i64(m.amount);
    let p2 = encode_utf8(m.receiver_pubkey);
    let t2: Seq<u8> = Seq::empty();
    let t1 = spec_encode_varint(18) + spec_encode_len_prefixed(p2) + t2;
    let t0 = spec_encode_varint(8) + spec_encode_varint(v) + t1;
    assert(t0 =~= spec_encode_income(m));
    encode_utf8_valid_utf8(m.receiver_pubkey);
    encode_utf8_decode_utf8(m.receiver_pubkey);
    lemma_field_step_u64(8, v, t1);
    lemma_field_step_len(18, p2, t2);
    lemma_i64_round_trip(m.amount);
    let acc0 = spec_income_default();
    let acc1 = IncomeModel { amount: m.amount, ..acc0 };
    let acc2 = IncomeModel { receiver_pubkey: m.receiver_pubkey, ..acc1 };
    let fuel0 = t0.len();
    assert(spec_decode_income_fields(t0, acc0, fuel0) == spec_decode_income_fields(
        t1,
        acc1,
        (fuel0 - 1) as nat,
    ));
    assert(spec_decode_income_fields(t1, acc1, (fuel0 - 1) as nat) == spec_decode_income_fields(
        t2,
        acc2,
        (fuel0 - 2) as nat,
    ));
    assert(spec_decode_income_fields(t2, acc2, (fuel0 - 2) as nat) == Ok::<IncomeModel,
        DecodeError>(acc2));
    assert(acc2 =~= m);
}

/// Decoding undoes encoding for response envelopes: the round-trip law of
/// the boundary. Every response that fits on the wire comes back exactly.
#[verifier::rlimit(100)]
pub proof fn lemma_response_round_trip(m: ResponseModel)
    requires
        spec_response_wire_ok(m),
    ensures
        spec_decode_response(spec_encode_response(m)) == Ok::<ResponseModel, DecodeError>(m),
{
    let p1 = encode_utf8(m.request_id);
    let v: u64 = if m.success {
        1
    } else {
        0
    };
    let p3 = encode_utf8(m.error_message);
    let p4 = m.proof_data;
    let t4: Seq<u8> = Seq::empty();
    let t3 = spec_encode_varint(34) + spec_encode_len_prefixed(p4) + t4;
    let t2 = spec_encode_varint(26) + spec_encode_len_prefixed(p3) + t3;
    let t1 = spec_encode_varint(16) + spec_encode_varint(v) + t2;
    let t0 = spec_encode_varint(10) + spec_encode_len_prefixed(p1) + t1;
    assert(t0 =~= spec_encode_response(m));
    encode_utf8_valid_utf8(m.request_id);
    encode_utf8_decode_utf8(m.request_id);
    encode_utf8_valid_utf8(m.error_message);
    encode_utf8_decode_utf8(m.error_message);
    lemma_field_step_len(10, p1, t1);
    lemma_field_step_u64(16, v, t2);
    lemma_field_step_len(26, p3, t3);
    lemma_field_step_len(34, p4, t4);
    let acc0 = spec_response_default();
    let acc1 = ResponseModel { request_id: m.request_id, ..acc0 };
    let acc2 = ResponseModel { success: m.success, ..acc1 };
    let acc3 = ResponseModel { error_message: m.error_message, ..acc2 };
    let acc4 = ResponseModel { proof_data: p4, ..acc3 };
    let fuel0 = t0.len();
    assert(spec_decode_response_fields(t0, acc0, fuel0) == spec_decode_response_fields(
        t1,
        acc1,
        (fuel0 - 1) as nat,
    ));
    assert(spec_decode_response_fields(t1, acc1, (fuel0 - 1) as nat)
        == spec_decode_response_fields(t2, acc2, (fuel0 - 2) as nat));
    assert(spec_decode_response_fields(t2, acc2, (fuel0 - 2) as nat)
        == spec_decode_response_fields(t3, acc3, (fuel0 - 3) as nat));
    assert(spec_decode_response_fields(t3, acc3, (fuel0 - 3) as nat)
        == spec_decode_response_fields(t4, acc4, (fuel0 - 4) as nat));
    assert(spec_decode_response_fields(t4, acc4, (fuel0 - 4) as nat) == Ok::<ResponseModel,
        DecodeError>(acc4));
    assert(acc4 =~= m);
}

/// Decoding undoes encoding for request envelopes, whichever payload
/// variant is populated, and also when none is.
#[verifier::rlimit(100)]
pub proof fn lemma_request_round_trip(m: RequestModel)
    requires
        spec_request_wire_ok(m),
    ensures
        spec_decode_request(spec_encode_request(m)) == Ok::<RequestModel, DecodeError>(m),
{
    let p1 = encode_utf8(m.request_id);
    let t1 = match m.payload {
        Some(p) => spec_encode_payload(p),
        None => Seq::<u8>::empty(),
    };
    let t0 = spec_encode_varint(10) + spec_encode_len_prefixed(p1) + t1;
    assert(t0 =~= spec_encode_request(m));
    encode_utf8_valid_utf8(m.request_id);
    encode_utf8_decode_utf8(m.request_id);
    lemma_field_step_len(10, p1, t1);
    let acc0 = spec_request_default();
    let acc1 = RequestModel { request_id: m.request_id, ..acc0 };
    let fuel0 = t0.len();
    assert(spec_decode_request_fields(t0, acc0, fuel0) == spec_decode_request_fields(
        t1,
        acc1,
        (fuel0 - 1) as nat,
    ));
    match m.payload {
        None => {
            assert(t1.len() == 0);
            assert(acc1 =~= m);
        },
        Some(p) => {
            let t2: Seq<u8> = Seq::empty();
            let sub = match p {
                PayloadModel::Identity(q) => spec_encode_identity(q),
                PayloadModel::Governance(q) => spec_encode_governance(q),
                PayloadModel::Income(q) => spec_encode_income(q),
                PayloadModel::Health => Seq::<u8>::empty(),
            };
            let key: u64 = match p {
                PayloadModel::Identity(q) => KEY_IDENTITY,
                PayloadModel::Governance(q) => KEY_GOVERNANCE,
                PayloadModel::Income(q) => KEY_INCOME,
                PayloadModel::Health => KEY_HEALTH,
            };
            assert(t1 =~= spec_encode_varint(key) + spec_encode_len_prefixed(sub) + t2);
            lemma_field_step_len(key, sub, t2);
            let acc2 = RequestModel { payload: Some(p), ..acc1 };
            match p {
                PayloadModel::Identity(q) => {
                    lemma_identity_round_trip(q);
                },
                PayloadModel::Governance(q) => {
                    lemma_governance_round_trip(q);
                },
                PayloadModel::Income(q) => {
                    lemma_income_round_trip(q);
                },
                PayloadModel::Health => {},
            }
            assert(spec_decode_request_fields(t1, acc1, (fuel0 - 1) as nat)
                == spec_decode_request_fields(t2, acc2, (fuel0 - 2) as nat));
            assert(spec_decode_request_fields(t2, acc2, (fuel0 - 2) as nat) == Ok::<RequestModel,
                DecodeError>(acc2));
            assert(acc2 =~= m);
        },
    }
}

} // verus!
