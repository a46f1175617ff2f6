//! Envelope and payload types exchanged across the native boundary, together
//! with their mathematical models (views) used by the wire-format contracts.

use vstd::prelude::*;

verus! {

/// Identity proof request: a semantic claim identifier plus an opaque
/// encrypted seed blob.
#[derive(Clone, Debug, PartialEq)]
pub struct IdentityRequest {
    pub attribute_id: String,
    pub encrypted_identity_seed: Vec<u8>,
}

/// Governance vote request: proposal, vote choice, and an opaque signature.
#[derive(Clone, Debug, PartialEq)]
pub struct GovernanceRequest {
    pub proposal_id: String,
    pub vote_choice: String,
    pub identity_signature: Vec<u8>,
}

/// Income proof request: an amount and the receiver's public key.
#[derive(Clone, Debug, PartialEq)]
pub struct IncomeRequest {
    pub amount: i64,
    pub receiver_pubkey: String,
}

/// The payload of a request envelope: a tagged union, so that at most one
/// variant can ever be populated.
#[derive(Clone, Debug, PartialEq)]
pub enum RequestPayload {
    Identity(IdentityRequest),
    Governance(GovernanceRequest),
    Income(IncomeRequest),
    /// Health-check payload: present on the wire, carries no fields.
    Health,
}

/// The request envelope: a caller-assigned identifier that is echoed back
/// verbatim, and an optional payload. `None` selects the default handler.
#[derive(Clone, Debug, PartialEq)]
pub struct EnclaveRequest {
    pub request_id: String,
    pub payload: Option<RequestPayload>,
}

/// The response envelope returned across the boundary.
#[derive(Clone, Debug, PartialEq)]
pub struct EnclaveResponse {
    pub request_id: String,
    pub success: bool,
    pub error_message: String,
    pub proof_data: Vec<u8>,
}

/// Why a byte sequence failed to decode as a request envelope.
#[derive(Clone, Copy, Debug, PartialEq, Eq, Structural)]
pub enum DecodeError {
    /// The input ended before the announced end of a field or value.
    Truncated,
    /// A variable-length integer ran past ten bytes or past `u64::MAX`.
    VarintTooLong,
    /// A field key carried the reserved tag zero.
    InvalidTag,
    /// A field key carried an unsupported wire type.
    InvalidWireType,
    /// A string field held bytes that are not valid UTF-8.
    InvalidUtf8,
}

/// Model of [`IdentityRequest`].
#[verifier::ext_equal]
pub ghost struct IdentityModel {
    pub attribute_id: Seq<char>,
    pub encrypted_identity_seed: Seq<u8>,
}

/// Model of [`GovernanceRequest`].
#[verifier::ext_equal]
pub ghost struct GovernanceModel {
    pub proposal_id: Seq<char>,
    pub vote_choice: Seq<char>,
    pub identity_signature: Seq<u8>,
}

/// Model of [`IncomeRequest`].
#[verifier::ext_equal]
pub ghost struct IncomeModel {
    pub amount: i64,
    pub receiver_pubkey: Seq<char>,
}

/// Model of [`RequestPayload`].
#[verifier::ext_equal]
pub ghost enum PayloadModel {
    Identity(IdentityModel),
    Governance(GovernanceModel),
    Income(IncomeModel),
    Health,
}

/// Model of [`EnclaveRequest`].
#[verifier::ext_equal]
pub ghost struct RequestModel {
    pub request_id: Seq<char>,
    pub payload: Option<PayloadModel>,
}

/// Model of [`EnclaveResponse`].
#[verifier::ext_equal]
pub ghost struct ResponseModel {
    pub request_id: Seq<char>,
    pub success: bool,
    pub error_message: Seq<char>,
    pub proof_data: Seq<u8>,
}

impl View for IdentityRequest {
    type V = IdentityModel;

    open spec fn view(&self) -> IdentityModel {
        IdentityModel {
            attribute_id: self.attribute_id@,
            encrypted_identity_seed: self.encrypted_identity_seed@,
        }
    }
}

impl View for GovernanceRequest {
    type V = GovernanceModel;

    open spec fn view(&self) -> GovernanceModel {
        GovernanceModel {
            proposal_id: self.proposal_id@,
            vote_choice: self.vote_choice@,
            identity_signature: self.identity_signature@,
        }
    }
}

impl View for IncomeRequest {
    type V = IncomeModel;

    open spec fn view(&self) -> IncomeModel {
        IncomeModel { amount: self.amount, receiver_pubkey: self.receiver_pubkey@ }
    }
}

impl View for RequestPayload {
    type V = PayloadModel;

    open spec fn view(&self) -> PayloadModel {
        match self {
            RequestPayload::Identity(p) => PayloadModel::Identity(p@),
            RequestPayload::Governance(p) => PayloadModel::Governance(p@),
            RequestPayload::Income(p) => PayloadModel::Income(p@),
            RequestPayload::Health => PayloadModel::Health,
        }
    }
}

impl View for EnclaveRequest {
    type V = RequestModel;

    open spec fn view(&self) -> RequestModel {
        RequestModel {
            request_id: self.request_id@,
            payload: match self.payload {
                Some(p) => Some(p@),
                None => None,
            },
        }
    }
}

impl View for EnclaveResponse {
    type V = ResponseModel;

    open spec fn view(&self) -> ResponseModel {
        ResponseModel {
            request_id: self.request_id@,
            success: self.success,
            error_message: self.error_message@,
            proof_data: self.proof_data@,
        }
    }
}

} // verus!
