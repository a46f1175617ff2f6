//! The dispatcher and the boundary pipeline: route a decoded request to its
//! handler by the populated payload variant, and convert every decode
//! failure into a well-formed failure response.

use vstd::prelude::*;
use crate::messages::{
    DecodeError, EnclaveRequest, EnclaveResponse, PayloadModel, RequestModel, RequestPayload,
    ResponseModel,
};
use crate::decode::{spec_decode_request, spec_decode_response};
use crate::encode::spec_encode_response;
use crate::handlers::{
    governance_proof, identity_proof, income_proof, placeholder_proof, spec_governance_proof,
    spec_identity_proof, spec_income_proof, spec_placeholder_proof,
};
use crate::encode::spec_encode_request;
use crate::roundtrip::{
    lemma_request_round_trip, lemma_response_round_trip, spec_request_wire_ok,
    spec_response_wire_ok,
};
use crate::text::lemma_encode_utf8_len;

verus! {

/// What the dispatcher returns for a decoded request: the handler selected
/// by the populated payload variant, applied to its typed fields. A
/// function of the request's model alone, so repeated dispatch of one
/// request yields identical proof bytes.
pub open spec fn spec_handle(m: RequestModel) -> ResponseModel {
    match m.payload {
        Some(PayloadModel::Identity(p)) => if p.attribute_id == "invalid"@ {
            ResponseModel {
                request_id: m.request_id,
                success: false,
                error_message: "Invalid attribute"@,
                proof_data: Seq::empty(),
            }
        } else {
            ResponseModel {
                request_id: m.request_id,
                success: true,
                error_message: Seq::empty(),
                proof_data: spec_identity_proof(p.attribute_id),
            }
        },
        Some(PayloadModel::Governance(p)) => ResponseModel {
            request_id: m.request_id,
            success: true,
            error_message: Seq::empty(),
            proof_data: spec_governance_proof(p.proposal_id),
        },
        Some(PayloadModel::Income(p)) => ResponseModel {
            request_id: m.request_id,
            success: true,
            error_message: Seq::empty(),
            proof_data: spec_income_proof(p.receiver_pubkey, p.amount),
        },
        Some(PayloadModel::Health) => ResponseModel {
            request_id: m.request_id,
            success: true,
            error_message: Seq::empty(),
            proof_data: spec_placeholder_proof(),
        },
        None => ResponseModel {
            request_id: m.request_id,
            success: true,
            error_message: Seq::empty(),
            proof_data: spec_placeholder_proof(),
        },
    }
}

/// Dispatches a decoded request to its handler and builds the response.
/// The response is pinned to [`spec_handle`] of the request's model, so two
/// calls on equal requests return equal responses.
pub fn process_request_logic(request: EnclaveRequest) -> (r: EnclaveResponse)
    ensures
        r@ == spec_handle(request@),
{
    match request.payload {
        Some(RequestPayload::Identity(p)) => {
            let sentinel = "invalid".to_owned();
            if p.attribute_id == sentinel {
                EnclaveResponse {
                    request_id: request.request_id,
                    success: false,
                    error_message: "Invalid attribute".to_owned(),
                    proof_data: Vec::new(),
                }
            } else {
                EnclaveResponse {
                    request_id: request.request_id,
                    success: true,
                    error_message: String::new(),
                    proof_data: identity_proof(p.attribute_id.as_str()),
                }
            }
        },
        Some(RequestPayload::Governance(p)) => EnclaveResponse {
            request_id: request.request_id,
            success: true,
            error_message: String::new(),
            proof_data: governance_proof(p.proposal_id.as_str()),
        },
        Some(RequestPayload::Income(p)) => EnclaveResponse {
            request_id: request.request_id,
            success: true,
            error_message: String::new(),
            proof_data: income_proof(p.receiver_pubkey.as_str(), p.amount),
        },
        Some(RequestPayload::Health) => EnclaveResponse {
            request_id: request.request_id,
            success: true,
            error_message: String::new(),
            proof_data: placeholder_proof(),
        },
        None => EnclaveResponse {
            request_id: request.request_id,
            success: true,
            error_message: String::new(),
            proof_data: placeholder_proof(),
        },
    }
}

/// The descriptive text of each decode failure.
pub open spec fn spec_error_text(e: DecodeError) -> Seq<char> {
    match e {
        DecodeError::Truncated => "Failed to decode request: the input ended inside a field"@,
        DecodeError::VarintTooLong => "Failed to decode request: an integer field overflowed"@,
        DecodeError::InvalidTag => "Failed to decode request: a field carried the reserved tag"@,
        DecodeError::InvalidWireType => "Failed to decode request: an unsupported wire type"@,
        DecodeError::InvalidUtf8 => "Failed to decode request: a string field held invalid bytes"@,
    }
}

impl DecodeError {
    /// The descriptive text of this decode failure.
    pub fn message(&self) -> (r: String)
        ensures
            r@ == spec_error_text(*self),
    {
        match *self {
            DecodeError::Truncated => "Failed to decode request: the input ended inside a field"
                .to_owned(),
            DecodeError::VarintTooLong => "Failed to decode request: an integer field overflowed"
                .to_owned(),
            DecodeError::InvalidTag => "Failed to decode request: a field carried the reserved tag"
                .to_owned(),
            DecodeError::InvalidWireType => "Failed to decode request: an unsupported wire type"
                .to_owned(),
            DecodeError::InvalidUtf8 => "Failed to decode request: a string field held invalid bytes"
                .to_owned(),
        }
    }
}

/// The failure response built when the input bytes did not decode: sentinel
/// identifier, failure flag, descriptive message, no proof bytes.
pub open spec fn spec_failure_response(e: DecodeError) -> ResponseModel {
    ResponseModel {
        request_id: "unknown"@,
        success: false,
        error_message: spec_error_text(e),
        proof_data: Seq::empty(),
    }
}

/// Builds the failure response for a decode failure.
pub fn failure_response(e: DecodeError) -> (r: EnclaveResponse)
    ensures
        r@ == spec_failure_response(e),
{
    EnclaveResponse {
        request_id: "unknown".to_owned(),
        success: false,
        error_message: e.message(),
        proof_data: Vec::new(),
    }
}

/// What the boundary returns for any input bytes: the encoded response of
/// the dispatched handler when the input decodes, else the encoded failure
/// response. Total: every byte sequence maps to response bytes.
pub open spec fn spec_process(b: Seq<u8>) -> Seq<u8> {
    match spec_decode_request(b) {
        Ok(m) => spec_encode_response(spec_handle(m)),
        Err(e) => spec_encode_response(spec_failure_response(e)),
    }
}

/// The boundary pipeline: decode, dispatch, handle, encode. Every failure
/// is converted into a well-formed encoded failure response; no input makes
/// this function fault.
pub fn process(input: &[u8]) -> (out: Vec<u8>)
    ensures
        out@ == spec_process(input@),
{
    match EnclaveRequest::decode(input) {
        Ok(req) => process_request_logic(req).encode(),
        Err(e) => failure_response(e).encode(),
    }
}

/// The whole pipeline, end to end: for every request that fits on the wire
/// and whose handler's response does too, feeding the request's bytes
/// through the boundary yields bytes that decode to exactly the handler's
/// response.
pub proof fn lemma_pipeline_round_trip(m: RequestModel)
    requires
        spec_request_wire_ok(m),
        spec_response_wire_ok(spec_handle(m)),
    ensures
        spec_decode_response(spec_process(spec_encode_request(m))) == Ok::<ResponseModel,
            DecodeError>(spec_handle(m)),
{
    lemma_request_round_trip(m);
    lemma_response_round_trip(spec_handle(m));
}

/// Error containment: for every malformed input, the boundary's bytes
/// decode to a well-formed response that names the sentinel identifier,
/// reports failure with a non-empty message, and carries no proof bytes.
pub proof fn lemma_error_containment(b: Seq<u8>)
    requires
        spec_decode_request(b) is Err,
    ensures
        spec_decode_response(spec_process(b)) matches Ok(m) && m.success == false && m.request_id
            == "unknown"@ && m.error_message.len() > 0 && m.proof_data.len() == 0,
{
    let e = spec_decode_request(b)->Err_0;
    let fm = spec_failure_response(e);
    lemma_encode_utf8_len(fm.request_id);
    lemma_encode_utf8_len(fm.error_message);
    reveal_strlit("unknown");
    match e {
        DecodeError::Truncated => reveal_strlit(
            "Failed to decode request: the input ended inside a field",
        ),
        DecodeError::VarintTooLong => reveal_strlit(
            "Failed to decode request: an integer field overflowed",
        ),
        DecodeError::InvalidTag => reveal_strlit(
            "Failed to decode request: a field carried the reserved tag",
        ),
        DecodeError::InvalidWireType => reveal_strlit(
            "Failed to decode request: an unsupported wire type",
        ),
        DecodeError::InvalidUtf8 => reveal_strlit(
            "Failed to decode request: a string field held invalid bytes",
        ),
    }
    assert(spec_response_wire_ok(fm));
    lemma_response_round_trip(fm);
}

} // verus!
