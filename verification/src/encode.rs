//! Encoders: the exact wire bytes of each message, as spec functions, and
//! the executable writers proved against them.
//!
//! Field keys are `tag * 8 + wire_type`; strings and byte blobs use the
//! length-delimited wire type 2, integers the varint wire type 0. Every
//! field is written, in tag order, so the bytes of a message are a function
//! of its model alone.

use vstd::prelude::*;
use vstd::utf8::encode_utf8;
use crate::messages::{
    EnclaveRequest, EnclaveResponse, GovernanceModel, GovernanceRequest, IdentityModel,
    IdentityRequest, IncomeModel, IncomeRequest, PayloadModel, RequestModel, RequestPayload,
    ResponseModel,
};
use crate::text::{spec_u64_of_i64, u64_of_i64};
use crate::varint::{spec_encode_varint, write_varint};
use crate::wire::spec_encode_len_prefixed;

verus! {

/// Key of the request envelope's `request_id` field (tag 1, length-delimited).
pub const KEY_REQUEST_ID: u64 = 10;

/// Key of the identity payload slot on the request envelope (tag 4).
pub const KEY_IDENTITY: u64 = 34;

/// Key of the governance payload slot on the request envelope (tag 5).
pub const KEY_GOVERNANCE: u64 = 42;

/// Key of the income payload slot on the request envelope (tag 6).
pub const KEY_INCOME: u64 = 50;

/// Key of the health payload slot on the request envelope (tag 7).
pub const KEY_HEALTH: u64 = 58;

/// The wire bytes of an identity payload.
pub open spec fn spec_encode_identity(m: IdentityModel) -> Seq<u8> {
    spec_encode_varint(10) + spec_encode_len_prefixed(encode_utf8(m.attribute_id))
        + spec_encode_varint(18) + spec_encode_len_prefixed(m.encrypted_identity_seed)
}

/// The wire bytes of a governance payload.
pub open spec fn spec_encode_governance(m: GovernanceModel) -> Seq<u8> {
    spec_encode_varint(10) + spec_encode_len_prefixed(encode_utf8(m.proposal_id))
        + spec_encode_varint(18) + spec_encode_len_prefixed(encode_utf8(m.vote_choice))
        + spec_encode_varint(26) + spec_encode_len_prefixed(m.identity_signature)
}

/// The wire bytes of an income payload.
pub open spec fn spec_encode_income(m: IncomeModel) -> Seq<u8> {
    spec_encode_varint(8) + spec_encode_varint(spec_u64_of_i64(m.amount)) + spec_encode_varint(18)
        + spec_encode_len_prefixed(encode_utf8(m.receiver_pubkey))
}

/// The wire bytes of a populated payload slot: its key, then the payload
/// message length-delimited.
pub open spec fn spec_encode_payload(p: PayloadModel) -> Seq<u8> {
    match p {
        PayloadModel::Identity(m) => spec_encode_varint(KEY_IDENTITY)
            + spec_encode_len_prefixed(spec_encode_identity(m)),
        PayloadModel::Governance(m) => spec_encode_varint(KEY_GOVERNANCE)
            + spec_encode_len_prefixed(spec_encode_governance(m)),
        PayloadModel::Income(m) => spec_encode_varint(KEY_INCOME)
            + spec_encode_len_prefixed(spec_encode_income(m)),
        PayloadModel::Health => spec_encode_varint(KEY_HEALTH) + spec_encode_len_prefixed(
            Seq::<u8>::empty(),
        ),
    }
}

/// The wire bytes of a request envelope.
pub open spec fn spec_encode_request(m: RequestModel) -> Seq<u8> {
    spec_encode_varint(KEY_REQUEST_ID) + spec_encode_len_prefixed(
        encode_utf8(m.request_id),
    ) + match m.payload {
        Some(p) => spec_encode_payload(p),
        None => Seq::<u8>::empty(),
    }
}

/// The wire bytes of a response envelope.
pub open spec fn spec_encode_response(m: ResponseModel) -> Seq<u8> {
    spec_encode_varint(10) + spec_encode_len_prefixed(encode_utf8(m.request_id))
        + spec_encode_varint(16) + spec_encode_varint(if m.success {
        1
    } else {
        0
    }) + spec_encode_varint(26) + spec_encode_len_prefixed(encode_utf8(m.error_message))
        + spec_encode_varint(34) + spec_encode_len_prefixed(m.proof_data)
}

/// Appends a string field: its key, then the string's UTF-8 bytes
/// length-delimited.
fn write_string_field(out: &mut Vec<u8>, key: u64, s: &str)
    ensures
        final(out)@ =~= old(out)@ + spec_encode_varint(key) + spec_encode_len_prefixed(
            encode_utf8(s@),
        ),
{
    write_varint(out, key);
    let bytes = s.as_bytes();
    write_varint(out, bytes.len() as u64);
    out.extend_from_slice(bytes);
}

/// Appends a byte-blob field: its key, then the bytes length-delimited.
fn write_bytes_field(out: &mut Vec<u8>, key: u64, b: &[u8])
    ensures
        final(out)@ =~= old(out)@ + spec_encode_varint(key) + spec_encode_len_prefixed(b@),
{
    write_varint(out, key);
    write_varint(out, b.len() as u64);
    out.extend_from_slice(b);
}

/// Appends an integer field: its key, then the value as a varint.
fn write_u64_field(out: &mut Vec<u8>, key: u64, v: u64)
    ensures
        final(out)@ =~= old(out)@ + spec_encode_varint(key) + spec_encode_varint(v),
{
    write_varint(out, key);
    write_varint(out, v);
}

/// Encodes an identity payload message.
pub fn encode_identity(m: &IdentityRequest) -> (out: Vec<u8>)
    ensures
        out@ =~= spec_encode_identity(m@),
{
    let mut out: Vec<u8> = Vec::new();
    write_string_field(&mut out, 10, m.attribute_id.as_str());
    write_bytes_field(&mut out, 18, m.encrypted_identity_seed.as_slice());
    out
}

/// Encodes a governance payload message.
pub fn encode_governance(m: &GovernanceRequest) -> (out: Vec<u8>)
    ensures
        out@ =~= spec_encode_governance(m@),
{
    let mut out: Vec<u8> = Vec::new();
    write_string_field(&mut out, 10, m.proposal_id.as_str());
    write_string_field(&mut out, 18, m.vote_choice.as_str());
    write_bytes_field(&mut out, 26, m.identity_signature.as_slice());
    out
}

/// Encodes an income payload message.
pub fn encode_income(m: &IncomeRequest) -> (out: Vec<u8>)
    ensures
        out@ =~= spec_encode_income(m@),
{
    let mut out: Vec<u8> = Vec::new();
    write_u64_field(&mut out, 8, u64_of_i64(m.amount));
    write_string_field(&mut out, 18, m.receiver_pubkey.as_str());
    out
}

impl EnclaveRequest {
    /// Encodes the request envelope. Encoding is total: every envelope has
    /// wire bytes, pinned down by [`spec_encode_request`].
    pub fn encode(&self) -> (out: Vec<u8>)
        ensures
            out@ =~= spec_encode_request(self@),
    {
        let mut out: Vec<u8> = Vec::new();
        write_string_field(&mut out, KEY_REQUEST_ID, self.request_id.as_str());
        match &self.payload {
            None => {},
            Some(RequestPayload::Identity(p)) => {
                let sub = encode_identity(p);
                write_bytes_field(&mut out, KEY_IDENTITY, sub.as_slice());
            },
            Some(RequestPayload::Governance(p)) => {
                let sub = encode_governance(p);
                write_bytes_field(&mut out, KEY_GOVERNANCE, sub.as_slice());
            },
            Some(RequestPayload::Income(p)) => {
                let sub = encode_income(p);
                write_bytes_field(&mut out, KEY_INCOME, sub.as_slice());
            },
            Some(RequestPayload::Health) => {
                let empty: Vec<u8> = Vec::new();
                write_bytes_field(&mut out, KEY_HEALTH, empty.as_slice());
            },
        }
        out
    }
}

impl EnclaveResponse {
    /// Encodes the response envelope. Encoding is total: every envelope has
    /// wire bytes, pinned down by [`spec_encode_response`], so the encoder
    /// cannot fail and the boundary's unrecoverable exit is never taken for
    /// a well-formed response.
    pub fn encode(&self) -> (out: Vec<u8>)
        ensures
            out@ =~= spec_encode_response(self@),
    {
        let mut out: Vec<u8> = Vec::new();
        write_string_field(&mut out, 10, self.request_id.as_str());
        write_u64_field(&mut out, 16, if self.success {
            1
        } else {
            0
        });
        write_string_field(&mut out, 26, self.error_message.as_str());
        write_bytes_field(&mut out, 34, self.proof_data.as_slice());
        out
    }
}

} // verus!
