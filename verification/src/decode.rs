//! Decoders: total over every byte sequence. Each message's decoder walks
//! the field stream, accepts fields in any order (the last occurrence of a
//! field wins), skips unknown fields, and returns a structured error — never
//! a fault — on anything that does not match the wire format.
//!
//! Each spec function carries a fuel bound, set to the byte length at the
//! top: every field consumes at least one byte, so the bound is never hit.

use vstd::prelude::*;
use vstd::slice::{slice_subrange, slice_to_vec};
use vstd::utf8::{decode_utf8, encode_utf8, encode_utf8_decode_utf8, encode_utf8_valid_utf8,
    valid_utf8};
use crate::messages::{
    DecodeError, EnclaveRequest, EnclaveResponse, GovernanceModel, GovernanceRequest,
    IdentityModel, IdentityRequest, IncomeModel, IncomeRequest, PayloadModel, RequestModel,
    RequestPayload, ResponseModel,
};
use crate::text::{bytes_to_string, i64_of_u64, spec_i64_of_u64};
use crate::varint::{spec_take_varint, take_varint};
use crate::wire::{spec_skip_field, spec_take_len, skip_field, take_len};

verus! {

/// The identity payload before any field was read: all fields empty.
pub open spec fn spec_identity_default() -> IdentityModel {
    IdentityModel { attribute_id: Seq::empty(), encrypted_identity_seed: Seq::empty() }
}

/// Reads the field stream of an identity payload message, folding each field
/// into `acc`.
pub open spec fn spec_decode_identity_fields(
    b: Seq<u8>,
    acc: IdentityModel,
    fuel: nat,
) -> Result<IdentityModel, DecodeError>
    decreases fuel,
{
    if b.len() == 0 {
        Ok(acc)
    } else if fuel == 0 {
        Err(DecodeError::Truncated)
    } else {
        match spec_take_varint(b) {
            Err(e) => Err(e),
            Ok((key, kn)) => {
                let tag = key / 8;
                let wt = key % 8;
                let rest = b.skip(kn as int);
                if tag == 0 {
                    Err(DecodeError::InvalidTag)
                } else if tag == 1 {
                    if wt != 2 {
                        Err(DecodeError::InvalidWireType)
                    } else {
                        match spec_take_len(rest) {
                            Err(e) => Err(e),
                            Ok((payload, n)) => if valid_utf8(payload) {
                                spec_decode_identity_fields(
                                    rest.skip(n as int),
                                    IdentityModel { attribute_id: decode_utf8(payload), ..acc },
                                    (fuel - 1) as nat,
                                )
                            } else {
                                Err(DecodeError::InvalidUtf8)
                            },
                        }
                    }
                } else if tag == 2 {
                    if wt != 2 {
                        Err(DecodeError::InvalidWireType)
                    } else {
                        match spec_take_len(rest) {
                            Err(e) => Err(e),
                            Ok((payload, n)) => spec_decode_identity_fields(
                                rest.skip(n as int),
                                IdentityModel { encrypted_identity_seed: payload, ..acc },
                                (fuel - 1) as nat,
                            ),
                        }
                    }
                } else {
                    match spec_skip_field(rest, wt) {
                        Err(e) => Err(e),
                        Ok(n) => spec_decode_identity_fields(
                            rest.skip(n as int),
                            acc,
                            (fuel - 1) as nat,
                        ),
                    }
                }
            },
        }
    }
}

/// What an identity payload's wire bytes mean: the model, or the exact error.
pub open spec fn spec_decode_identity(b: Seq<u8>) -> Result<IdentityModel, DecodeError> {
    spec_decode_identity_fields(b, spec_identity_default(), b.len())
}

/// Decodes an identity payload message.
pub fn decode_identity(b: &[u8]) -> (r: Result<IdentityRequest, DecodeError>)
    ensures
        match r {
            Ok(m) => spec_decode_identity(b@) == Ok::<IdentityModel, DecodeError>(m@),
            Err(e) => spec_decode_identity(b@) == Err::<IdentityModel, DecodeError>(e),
        },
{
    let mut attribute_id = String::new();
    let mut encrypted_identity_seed: Vec<u8> = Vec::new();
    let mut pos: usize = 0;
    let ghost mut fuel: nat = b@.len();
    proof {
        assert(IdentityModel {
            attribute_id: attribute_id@,
            encrypted_identity_seed: encrypted_identity_seed@,
        } =~= spec_identity_default());
        assert(b@.skip(0) =~= b@);
    }
    loop
        invariant
            pos <= b@.len(),
            b@.len() - pos <= fuel,
            spec_decode_identity(b@) == spec_decode_identity_fields(
                b@.skip(pos as int),
                IdentityModel {
                    attribute_id: attribute_id@,
                    encrypted_identity_seed: encrypted_identity_seed@,
                },
                fuel,
            ),
        decreases b@.len() - pos,
    {
        let ghost pre = b@.skip(pos as int);
        let ghost acc0 = IdentityModel {
            attribute_id: attribute_id@,
            encrypted_identity_seed: encrypted_identity_seed@,
        };
        if pos == b.len() {
            proof {
                assert(pre.len() == 0);
            }
            return Ok(IdentityRequest { attribute_id, encrypted_identity_seed });
        }
        match take_varint(b, pos) {
            Err(e) => {
                return Err(e);
            },
            Ok((key, kn)) => {
                let tag = key / 8;
                let wt = key % 8;
                proof {
                    assert(pre.skip(kn as int) =~= b@.skip(pos + kn));
                }
                if tag == 0 {
                    return Err(DecodeError::InvalidTag);
                } else if tag == 1 {
                    if wt != 2 {
                        return Err(DecodeError::InvalidWireType);
                    }
                    match take_len(b, pos + kn) {
                        Err(e) => {
                            return Err(e);
                        },
                        Ok((start, len)) => {
                            let payload = slice_subrange(b, start, start + len);
                            match bytes_to_string(payload) {
                                None => {
                                    return Err(DecodeError::InvalidUtf8);
                                },
                                Some(s) => {
                                    proof {
                                        encode_utf8_valid_utf8(s@);
                                        encode_utf8_decode_utf8(s@);
                                        assert(b@.skip(pos + kn).skip(
                                            (start + len - (pos + kn)) as int,
                                        ) =~= b@.skip(start + len));
                                        fuel = (fuel - 1) as nat;
                                    }
                                    attribute_id = s;
                                    pos = start + len;
                                },
                            }
                        },
                    }
                } else if tag == 2 {
                    if wt != 2 {
                        return Err(DecodeError::InvalidWireType);
                    }
                    match take_len(b, pos + kn) {
                        Err(e) => {
                            return Err(e);
                        },
                        Ok((start, len)) => {
                            let payload = slice_subrange(b, start, start + len);
                            encrypted_identity_seed = slice_to_vec(payload);
                            proof {
                                assert(b@.skip(pos + kn).skip((start + len - (pos + kn)) as int)
                                    =~= b@.skip(start + len));
                                fuel = (fuel - 1) as nat;
                            }
                            pos = start + len;
                        },
                    }
                } else {
                    match skip_field(b, pos + kn, wt) {
                        Err(e) => {
                            return Err(e);
                        },
                        Ok(n) => {
                            proof {
                                assert(b@.skip(pos + kn).skip(n as int) =~= b@.skip(
                                    pos + kn + n,
                                ));
                                fuel = (fuel - 1) as nat;
                            }
                            pos = pos + kn + n;
                        },
                    }
                }
            },
        }
    }
}

/// The governance payload before any field was read: all fields empty.
pub open spec fn spec_governance_default() -> GovernanceModel {
    GovernanceModel {
        proposal_id: Seq::empty(),
        vote_choice: Seq::empty(),
        identity_signature: Seq::empty(),
    }
}

/// Reads the field stream of a governance payload message, folding each
/// field into `acc`.
pub open spec fn spec_decode_governance_fields(
    b: Seq<u8>,
    acc: GovernanceModel,
    fuel: nat,
) -> Result<GovernanceModel, DecodeError>
    decreases fuel,
{
    if b.len() == 0 {
        Ok(acc)
    } else if fuel == 0 {
        Err(DecodeError::Truncated)
    } else {
        match spec_take_varint(b) {
            Err(e) => Err(e),
            Ok((key, kn)) => {
                let tag = key / 8;
                let wt = key % 8;
                let rest = b.skip(kn as int);
                if tag == 0 {
                    Err(DecodeError::InvalidTag)
                } else if tag == 1 || tag == 2 {
                    if wt != 2 {
                        Err(DecodeError::InvalidWireType)
                    } else {
                        match spec_take_len(rest) {
                            Err(e) => Err(e),
                            Ok((payload, n)) => if valid_utf8(payload) {
                                spec_decode_governance_fields(
                                    rest.skip(n as int),
                                    if tag == 1 {
                                        GovernanceModel { proposal_id: decode_utf8(payload), ..acc }
                                    } else {
                                        GovernanceModel { vote_choice: decode_utf8(payload), ..acc }
                                    },
                                    (fuel - 1) as nat,
                                )
                            } else {
                                Err(DecodeError::InvalidUtf8)
                            },
                        }
                    }
                } else if tag == 3 {
                    if wt != 2 {
                        Err(DecodeError::InvalidWireType)
                    } else {
                        match spec_take_len(rest) {
                            Err(e) => Err(e),
                            Ok((payload, n)) => spec_decode_governance_fields(
                                rest.skip(n as int),
                                GovernanceModel { identity_signature: payload, ..acc },
                                (fuel - 1) as nat,
                            ),
                        }
                    }
                } else {
                    match spec_skip_field(rest, wt) {
                        Err(e) => Err(e),
                        Ok(n) => spec_decode_governance_fields(
                            rest.skip(n as int),
                            acc,
                            (fuel - 1) as nat,
                        ),
                    }
                }
            },
        }
    }
}

/// What a governance payload's wire bytes mean: the model, or the exact
/// error.
pub open spec fn spec_decode_governance(b: Seq<u8>) -> Result<GovernanceModel, DecodeError> {
    spec_decode_governance_fields(b, spec_governance_default(), b.len())
}

/// Decodes a governance payload message.
pub fn decode_governance(b: &[u8]) -> (r: Result<GovernanceRequest, DecodeError>)
    ensures
        match r {
            Ok(m) => spec_decode_governance(b@) == Ok::<GovernanceModel, DecodeError>(m@),
            Err(e) => spec_decode_governance(b@) == Err::<GovernanceModel, DecodeError>(e),
        },
{
    let mut proposal_id = String::new();
    let mut vote_choice = String::new();
    let mut identity_signature: Vec<u8> = Vec::new();
    let mut pos: usize = 0;
    let ghost mut fuel: nat = b@.len();
    proof {
        assert(GovernanceModel {
            proposal_id: proposal_id@,
            vote_choice: vote_choice@,
            identity_signature: identity_signature@,
        } =~= spec_governance_default());
        assert(b@.skip(0) =~= b@);
    }
    loop
        invariant
            pos <= b@.len(),
            b@.len() - pos <= fuel,
            spec_decode_governance(b@) == spec_decode_governance_fields(
                b@.skip(pos as int),
                GovernanceModel {
                    proposal_id: proposal_id@,
                    vote_choice: vote_choice@,
                    identity_signature: identity_signature@,
                },
                fuel,
            ),
        decreases b@.len() - pos,
    {
        if pos == b.len() {
            return Ok(GovernanceRequest { proposal_id, vote_choice, identity_signature });
        }
        match take_varint(b, pos) {
            Err(e) => {
                return Err(e);
            },
            Ok((key, kn)) => {
                let tag = key / 8;
                let wt = key % 8;
                proof {
                    assert(b@.skip(pos as int).skip(kn as int) =~= b@.skip(pos + kn));
                }
                if tag == 0 {
                    return Err(DecodeError::InvalidTag);
                } else if tag == 1 || tag == 2 {
                    if wt != 2 {
                        return Err(DecodeError::InvalidWireType);
                    }
                    match take_len(b, pos + kn) {
                        Err(e) => {
                            return Err(e);
                        },
                        Ok((start, len)) => {
                            let payload = slice_subrange(b, start, start + len);
                            match bytes_to_string(payload) {
                                None => {
                                    return Err(DecodeError::InvalidUtf8);
                                },
                                Some(s) => {
                                    proof {
                                        encode_utf8_valid_utf8(s@);
                                        encode_utf8_decode_utf8(s@);
                                        assert(b@.skip(pos + kn).skip(
                                            (start + len - (pos + kn)) as int,
                                        ) =~= b@.skip(start + len));
                                        fuel = (fuel - 1) as nat;
                                    }
                                    if tag == 1 {
                                        proposal_id = s;
                                    } else {
                                        vote_choice = s;
                                    }
                                    pos = start + len;
                                },
                            }
                        },
                    }
                } else if tag == 3 {
                    if wt != 2 {
                        return Err(DecodeError::InvalidWireType);
                    }
                    match take_len(b, pos + kn) {
                        Err(e) => {
                            return Err(e);
                        },
                        Ok((start, len)) => {
                            let payload = slice_subrange(b, start, start + len);
                            identity_signature = slice_to_vec(payload);
                            proof {
                                assert(b@.skip(pos + kn).skip((start + len - (pos + kn)) as int)
                                    =~= b@.skip(start + len));
                                fuel = (fuel - 1) as nat;
                            }
                            pos = start + len;
                        },
                    }
                } else {
                    match skip_field(b, pos + kn, wt) {
                        Err(e) => {
                            return Err(e);
                        },
                        Ok(n) => {
                            proof {
                                assert(b@.skip(pos + kn).skip(n as int) =~= b@.skip(
                                    pos + kn + n,
                                ));
                                fuel = (fuel - 1) as nat;
                            }
                            pos = pos + kn + n;
                        },
                    }
                }
            },
        }
    }
}

/// The income payload before any field was read: amount zero, empty key.
pub open spec fn spec_income_default() -> IncomeModel {
    IncomeModel { amount: 0, receiver_pubkey: Seq::empty() }
}

/// Reads the field stream of an income payload message, folding each field
/// into `acc`.
pub open spec fn spec_decode_income_fields(
    b: Seq<u8>,
    acc: IncomeModel,
    fuel: nat,
) -> Result<IncomeModel, DecodeError>
    decreases fuel,
{
    if b.len() == 0 {
        Ok(acc)
    } else if fuel == 0 {
        Err(DecodeError::Truncated)
    } else {
        match spec_take_varint(b) {
            Err(e) => Err(e),
            Ok((key, kn)) => {
                let tag = key / 8;
                let wt = key % 8;
                let rest = b.skip(kn as int);
                if tag == 0 {
                    Err(DecodeError::InvalidTag)
                } else if tag == 1 {
                    if wt != 0 {
                        Err(DecodeError::InvalidWireType)
                    } else {
                        match spec_take_varint(rest) {
                            Err(e) => Err(e),
                            Ok((v, n)) => spec_decode_income_fields(
                                rest.skip(n as int),
                                IncomeModel { amount: spec_i64_of_u64(v), ..acc },
                                (fuel - 1) as nat,
                            ),
                        }
                    }
                } else if tag == 2 {
                    if wt != 2 {
                        Err(DecodeError::InvalidWireType)
                    } else {
                        match spec_take_len(rest) {
                            Err(e) => Err(e),
                            Ok((payload, n)) => if valid_utf8(payload) {
                                spec_decode_income_fields(
                                    rest.skip(n as int),
                                    IncomeModel { receiver_pubkey: decode_utf8(payload), ..acc },
                                    (fuel - 1) as nat,
                                )
                            } else {
                                Err(DecodeError::InvalidUtf8)
                            },
                        }
                    }
                } else {
                    match spec_skip_field(rest, wt) {
                        Err(e) => Err(e),
                        Ok(n) => spec_decode_income_fields(
                            rest.skip(n as int),
                            acc,
                            (fuel - 1) as nat,
                        ),
                    }
                }
            },
        }
    }
}

/// What an income payload's wire bytes mean: the model, or the exact error.
pub open spec fn spec_decode_income(b: Seq<u8>) -> Result<IncomeModel, DecodeError> {
    spec_decode_income_fields(b, spec_income_default(), b.len())
}

/// Decodes an income payload message.
pub fn decode_income(b: &[u8]) -> (r: Result<IncomeRequest, DecodeError>)
    ensures
        match r {
            Ok(m) => spec_decode_income(b@) == Ok::<IncomeModel, DecodeError>(m@),
            Err(e) => spec_decode_income(b@) == Err::<IncomeModel, DecodeError>(e),
        },
{
    let mut amount: i64 = 0;
    let mut receiver_pubkey = String::new();
    let mut pos: usize = 0;
    let ghost mut fuel: nat = b@.len();
    proof {
        assert(IncomeModel { amount: amount, receiver_pubkey: receiver_pubkey@ }
            =~= spec_income_default());
        assert(b@.skip(0) =~= b@);
    }
    loop
        invariant
            pos <= b@.len(),
            b@.len() - pos <= fuel,
            spec_decode_income(b@) == spec_decode_income_fields(
                b@.skip(pos as int),
                IncomeModel { amount: amount, receiver_pubkey: receiver_pubkey@ },
                fuel,
            ),
        decreases b@.len() - pos,
    {
        if pos == b.len() {
            return Ok(IncomeRequest { amount, receiver_pubkey });
        }
        match take_varint(b, pos) {
            Err(e) => {
                return Err(e);
            },
            Ok((key, kn)) => {
                let tag = key / 8;
                let wt = key % 8;
                proof {
                    assert(b@.skip(pos as int).skip(kn as int) =~= b@.skip(pos + kn));
                }
                if tag == 0 {
                    return Err(DecodeError::InvalidTag);
                } else if tag == 1 {
                    if wt != 0 {
                        return Err(DecodeError::InvalidWireType);
                    }
                    match take_varint(b, pos + kn) {
                        Err(e) => {
                            return Err(e);
                        },
                        Ok((v, n)) => {
                            amount = i64_of_u64(v);
                            proof {
                                assert(b@.skip(pos + kn).skip(n as int) =~= b@.skip(
                                    pos + kn + n,
                                ));
                                fuel = (fuel - 1) as nat;
                            }
                            pos = pos + kn + n;
                        },
                    }
                } else if tag == 2 {
                    if wt != 2 {
                        return Err(DecodeError::InvalidWireType);
                    }
                    match take_len(b, pos + kn) {
                        Err(e) => {
                            return Err(e);
                        },
                        Ok((start, len)) => {
                            let payload = slice_subrange(b, start, start + len);
                            match bytes_to_string(payload) {
                                None => {
                                    return Err(DecodeError::InvalidUtf8);
                                },
                                Some(s) => {
                                    proof {
                                        encode_utf8_valid_utf8(s@);
                                        encode_utf8_decode_utf8(s@);
                                        assert(b@.skip(pos + kn).skip(
                                            (start + len - (pos + kn)) as int,
                                        ) =~= b@.skip(start + len));
                                        fuel = (fuel - 1) as nat;
                                    }
                                    receiver_pubkey = s;
                                    pos = start + len;
                                },
                            }
                        },
                    }
                } else {
                    match skip_field(b, pos + kn, wt) {
                        Err(e) => {
                            return Err(e);
                        },
                        Ok(n) => {
                            proof {
                                assert(b@.skip(pos + kn).skip(n as int) =~= b@.skip(
                                    pos + kn + n,
                                ));
                                fuel = (fuel - 1) as nat;
                            }
                            pos = pos + kn + n;
                        },
                    }
                }
            },
        }
    }
}

/// The response envelope before any field was read: all fields empty or
/// false.
pub open spec fn spec_response_default() -> ResponseModel {
    ResponseModel {
        request_id: Seq::empty(),
        success: false,
        error_message: Seq::empty(),
        proof_data: Seq::empty(),
    }
}

/// Reads the field stream of a response envelope, folding each field into
/// `acc`.
pub open spec fn spec_decode_response_fields(
    b: Seq<u8>,
    acc: ResponseModel,
    fuel: nat,
) -> Result<ResponseModel, DecodeError>
    decreases fuel,
{
    if b.len() == 0 {
        Ok(acc)
    } else if fuel == 0 {
        Err(DecodeError::Truncated)
    } else {
        match spec_take_varint(b) {
            Err(e) => Err(e),
            Ok((key, kn)) => {
                let tag = key / 8;
                let wt = key % 8;
                let rest = b.skip(kn as int);
                if tag == 0 {
                    Err(DecodeError::InvalidTag)
                } else if tag == 1 || tag == 3 {
                    if wt != 2 {
                        Err(DecodeError::InvalidWireType)
                    } else {
                        match spec_take_len(rest) {
                            Err(e) => Err(e),
                            Ok((payload, n)) => if valid_utf8(payload) {
                                spec_decode_response_fields(
                                    rest.skip(n as int),
                                    if tag == 1 {
                                        ResponseModel { request_id: decode_utf8(payload), ..acc }
                                    } else {
                                        ResponseModel {
                                            error_message: decode_utf8(payload),
                                            ..acc
                                        }
                                    },
                                    (fuel - 1) as nat,
                                )
                            } else {
                                Err(DecodeError::InvalidUtf8)
                            },
                        }
                    }
                } else if tag == 2 {
                    if wt != 0 {
                        Err(DecodeError::InvalidWireType)
                    } else {
                        match spec_take_varint(rest) {
                            Err(e) => Err(e),
                            Ok((v, n)) => spec_decode_response_fields(
                                rest.skip(n as int),
                                ResponseModel { success: v != 0, ..acc },
                                (fuel - 1) as nat,
                            ),
                        }
                    }
                } else if tag == 4 {
                    if wt != 2 {
                        Err(DecodeError::InvalidWireType)
                    } else {
                        match spec_take_len(rest) {
                            Err(e) => Err(e),
                            Ok((payload, n)) => spec_decode_response_fields(
                                rest.skip(n as int),
                                ResponseModel { proof_data: payload, ..acc },
                                (fuel - 1) as nat,
                            ),
                        }
                    }
                } else {
                    match spec_skip_field(rest, wt) {
                        Err(e) => Err(e),
                        Ok(n) => spec_decode_response_fields(
                            rest.skip(n as int),
                            acc,
                            (fuel - 1) as nat,
                        ),
                    }
                }
            },
        }
    }
}

/// What a response envelope's wire bytes mean: the model, or the exact
/// error.
pub open spec fn spec_decode_response(b: Seq<u8>) -> Result<ResponseModel, DecodeError> {
    spec_decode_response_fields(b, spec_response_default(), b.len())
}

impl EnclaveResponse {
    /// Decodes a response envelope. Total over every byte sequence: it
    /// returns the envelope or the exact error of [`spec_decode_response`],
    /// and never faults.
    pub fn decode(b: &[u8]) -> (r: Result<EnclaveResponse, DecodeError>)
        ensures
            match r {
                Ok(m) => spec_decode_response(b@) == Ok::<ResponseModel, DecodeError>(m@),
                Err(e) => spec_decode_response(b@) == Err::<ResponseModel, DecodeError>(e),
            },
    {
        let mut request_id = String::new();
        let mut success: bool = false;
        let mut error_message = String::new();
        let mut proof_data: Vec<u8> = Vec::new();
        let mut pos: usize = 0;
        let ghost mut fuel: nat = b@.len();
        proof {
            assert(ResponseModel {
                request_id: request_id@,
                success: success,
                error_message: error_message@,
                proof_data: proof_data@,
            } =~= spec_response_default());
            assert(b@.skip(0) =~= b@);
        }
        loop
            invariant
                pos <= b@.len(),
                b@.len() - pos <= fuel,
                spec_decode_response(b@) == spec_decode_response_fields(
                    b@.skip(pos as int),
                    ResponseModel {
                        request_id: request_id@,
                        success: success,
                        error_message: error_message@,
                        proof_data: proof_data@,
                    },
                    fuel,
                ),
            decreases b@.len() - pos,
        {
            if pos == b.len() {
                return Ok(EnclaveResponse { request_id, success, error_message, proof_data });
            }
            match take_varint(b, pos) {
                Err(e) => {
                    return Err(e);
                },
                Ok((key, kn)) => {
                    let tag = key / 8;
                    let wt = key % 8;
                    proof {
                        assert(b@.skip(pos as int).skip(kn as int) =~= b@.skip(pos + kn));
                    }
                    if tag == 0 {
                        return Err(DecodeError::InvalidTag);
                    } else if tag == 1 || tag == 3 {
                        if wt != 2 {
                            return Err(DecodeError::InvalidWireType);
                        }
                        match take_len(b, pos + kn) {
                            Err(e) => {
                                return Err(e);
                            },
                            Ok((start, len)) => {
                                let payload = slice_subrange(b, start, start + len);
                                match bytes_to_string(payload) {
                                    None => {
                                        return Err(DecodeError::InvalidUtf8);
                                    },
                                    Some(s) => {
                                        proof {
                                            encode_utf8_valid_utf8(s@);
                                            encode_utf8_decode_utf8(s@);
                                            assert(b@.skip(pos + kn).skip(
                                                (start + len - (pos + kn)) as int,
                                            ) =~= b@.skip(start + len));
                                            fuel = (fuel - 1) as nat;
                                        }
                                        if tag == 1 {
                                            request_id = s;
                                        } else {
                                            error_message = s;
                                        }
                                        pos = start + len;
                                    },
                                }
                            },
                        }
                    } else if tag == 2 {
                        if wt != 0 {
                            return Err(DecodeError::InvalidWireType);
                        }
                        match take_varint(b, pos + kn) {
                            Err(e) => {
                                return Err(e);
                            },
                            Ok((v, n)) => {
                                success = v != 0;
                                proof {
                                    assert(b@.skip(pos + kn).skip(n as int) =~= b@.skip(
                                        pos + kn + n,
                                    ));
                                    fuel = (fuel - 1) as nat;
                                }
                                pos = pos + kn + n;
                            },
                        }
                    } else if tag == 4 {
                        if wt != 2 {
                            return Err(DecodeError::InvalidWireType);
                        }
                        match take_len(b, pos + kn) {
                            Err(e) => {
                                return Err(e);
                            },
                            Ok((start, len)) => {
                                let payload = slice_subrange(b, start, start + len);
                                proof_data = slice_to_vec(payload);
                                proof {
                                    assert(b@.skip(pos + kn).skip(
                                        (start + len - (pos + kn)) as int,
                                    ) =~= b@.skip(start + len));
                                    fuel = (fuel - 1) as nat;
                                }
                                pos = start + len;
                            },
                        }
                    } else {
                        match skip_field(b, pos + kn, wt) {
                            Err(e) => {
                                return Err(e);
                            },
                            Ok(n) => {
                                proof {
                                    assert(b@.skip(pos + kn).skip(n as int) =~= b@.skip(
                                        pos + kn + n,
                                    ));
                                    fuel = (fuel - 1) as nat;
                                }
                                pos = pos + kn + n;
                            },
                        }
                    }
                },
            }
        }
    }
}

/// The request envelope before any field was read: empty identifier, no
/// payload.
pub open spec fn spec_request_default() -> RequestModel {
    RequestModel { request_id: Seq::empty(), payload: None }
}

/// Reads the field stream of a request envelope, folding each field into
/// `acc`. A populated payload slot replaces any payload read before it, so
/// the envelope that comes out holds at most one payload variant.
pub open spec fn spec_decode_request_fields(
    b: Seq<u8>,
    acc: RequestModel,
    fuel: nat,
) -> Result<RequestModel, DecodeError>
    decreases fuel,
{
    if b.len() == 0 {
        Ok(acc)
    } else if fuel == 0 {
        Err(DecodeError::Truncated)
    } else {
        match spec_take_varint(b) {
            Err(e) => Err(e),
            Ok((key, kn)) => {
                let tag = key / 8;
                let wt = key % 8;
                let rest = b.skip(kn as int);
                if tag == 0 {
                    Err(DecodeError::InvalidTag)
                } else if tag == 1 {
                    if wt != 2 {
                        Err(DecodeError::InvalidWireType)
                    } else {
                        match spec_take_len(rest) {
                            Err(e) => Err(e),
                            Ok((payload, n)) => if valid_utf8(payload) {
                                spec_decode_request_fields(
                                    rest.skip(n as int),
                                    RequestModel { request_id: decode_utf8(payload), ..acc },
                                    (fuel - 1) as nat,
                                )
                            } else {
                                Err(DecodeError::InvalidUtf8)
                            },
                        }
                    }
                } else if tag == 4 {
                    if wt != 2 {
                        Err(DecodeError::InvalidWireType)
                    } else {
                        match spec_take_len(rest) {
                            Err(e) => Err(e),
                            Ok((payload, n)) => match spec_decode_identity(payload) {
                                Err(e) => Err(e),
                                Ok(m) => spec_decode_request_fields(
                                    rest.skip(n as int),
                                    RequestModel {
                                        payload: Some(PayloadModel::Identity(m)),
                                        ..acc
                                    },
                                    (fuel - 1) as nat,
                                ),
                            },
                        }
                    }
                } else if tag == 5 {
                    if wt != 2 {
                        Err(DecodeError::InvalidWireType)
                    } else {
                        match spec_take_len(rest) {
                            Err(e) => Err(e),
                            Ok((payload, n)) => match spec_decode_governance(payload) {
                                Err(e) => Err(e),
                                Ok(m) => spec_decode_request_fields(
                                    rest.skip(n as int),
                                    RequestModel {
                                        payload: Some(PayloadModel::Governance(m)),
                                        ..acc
                                    },
                                    (fuel - 1) as nat,
                                ),
                            },
                        }
                    }
                } else if tag == 6 {
                    if wt != 2 {
                        Err(DecodeError::InvalidWireType)
                    } else {
                        match spec_take_len(rest) {
                            Err(e) => Err(e),
                            Ok((payload, n)) => match spec_decode_income(payload) {
                                Err(e) => Err(e),
                                Ok(m) => spec_decode_request_fields(
                                    rest.skip(n as int),
                                    RequestModel { payload: Some(PayloadModel::Income(m)), ..acc },
                                    (fuel - 1) as nat,
                                ),
                            },
                        }
                    }
                } else if tag == 7 {
                    if wt != 2 {
                        Err(DecodeError::InvalidWireType)
                    } else {
                        match spec_take_len(rest) {
                            Err(e) => Err(e),
                            Ok((payload, n)) => spec_decode_request_fields(
                                rest.skip(n as int),
                                RequestModel { payload: Some(PayloadModel::Health), ..acc },
                                (fuel - 1) as nat,
                            ),
                        }
                    }
                } else {
                    match spec_skip_field(rest, wt) {
                        Err(e) => Err(e),
                        Ok(n) => spec_decode_request_fields(
                            rest.skip(n as int),
                            acc,
                            (fuel - 1) as nat,
                        ),
                    }
                }
            },
        }
    }
}

/// What a request envelope's wire bytes mean: the model, or the exact
/// error. Total: every byte sequence maps to exactly one of the two.
pub open spec fn spec_decode_request(b: Seq<u8>) -> Result<RequestModel, DecodeError> {
    spec_decode_request_fields(b, spec_request_default(), b.len())
}

/// The model of an optional payload value.
pub open spec fn spec_payload_view(p: Option<RequestPayload>) -> Option<PayloadModel> {
    match p {
        Some(q) => Some(q@),
        None => None,
    }
}

impl EnclaveRequest {
    /// Decodes a request envelope. Total over every byte sequence: it
    /// returns the envelope or the exact error of [`spec_decode_request`],
    /// and never faults. The payload is a tagged union, so the decoded
    /// envelope holds at most one populated variant by construction.
    #[verifier::rlimit(60)]
    pub fn decode(b: &[u8]) -> (r: Result<EnclaveRequest, DecodeError>)
        ensures
            match r {
                Ok(m) => spec_decode_request(b@) == Ok::<RequestModel, DecodeError>(m@),
                Err(e) => spec_decode_request(b@) == Err::<RequestModel, DecodeError>(e),
            },
    {
        let mut request_id = String::new();
        let mut payload: Option<RequestPayload> = None;
        let mut pos: usize = 0;
        let ghost mut fuel: nat = b@.len();
        proof {
            assert(RequestModel { request_id: request_id@, payload: spec_payload_view(payload) }
                =~= spec_request_default());
            assert(b@.skip(0) =~= b@);
        }
        loop
            invariant
                pos <= b@.len(),
                b@.len() - pos <= fuel,
                spec_decode_request(b@) == spec_decode_request_fields(
                    b@.skip(pos as int),
                    RequestModel { request_id: request_id@, payload: spec_payload_view(payload) },
                    fuel,
                ),
            decreases b@.len() - pos,
        {
            if pos == b.len() {
                return Ok(EnclaveRequest { request_id, payload });
            }
            match take_varint(b, pos) {
                Err(e) => {
                    return Err(e);
                },
                Ok((key, kn)) => {
                    let tag = key / 8;
                    let wt = key % 8;
                    proof {
                        assert(b@.skip(pos as int).skip(kn as int) =~= b@.skip(pos + kn));
                    }
                    if tag == 0 {
                        return Err(DecodeError::InvalidTag);
                    } else if tag == 1 {
                        if wt != 2 {
                            return Err(DecodeError::InvalidWireType);
                        }
                        match take_len(b, pos + kn) {
                            Err(e) => {
                                return Err(e);
                            },
                            Ok((start, len)) => {
                                let sub = slice_subrange(b, start, start + len);
                                match bytes_to_string(sub) {
                                    None => {
                                        return Err(DecodeError::InvalidUtf8);
                                    },
                                    Some(s) => {
                                        proof {
                                            encode_utf8_valid_utf8(s@);
                                            encode_utf8_decode_utf8(s@);
                                            assert(b@.skip(pos + kn).skip(
                                                (start + len - (pos + kn)) as int,
                                            ) =~= b@.skip(start + len));
                                            fuel = (fuel - 1) as nat;
                                        }
                                        request_id = s;
                                        pos = start + len;
                                    },
                                }
                            },
                        }
                    } else if tag == 4 || tag == 5 || tag == 6 || tag == 7 {
                        if wt != 2 {
                            return Err(DecodeError::InvalidWireType);
                        }
                        match take_len(b, pos + kn) {
                            Err(e) => {
                                return Err(e);
                            },
                            Ok((start, len)) => {
                                let sub = slice_subrange(b, start, start + len);
                                proof {
                                    assert(b@.skip(pos + kn).skip(
                                        (start + len - (pos + kn)) as int,
                                    ) =~= b@.skip(start + len));
                                }
                                if tag == 4 {
                                    match decode_identity(sub) {
                                        Err(e) => {
                                            return Err(e);
                                        },
                                        Ok(m) => {
                                            payload = Some(RequestPayload::Identity(m));
                                        },
                                    }
                                } else if tag == 5 {
                                    match decode_governance(sub) {
                                        Err(e) => {
                                            return Err(e);
                                        },
                                        Ok(m) => {
                                            payload = Some(RequestPayload::Governance(m));
                                        },
                                    }
                                } else if tag == 6 {
                                    match decode_income(sub) {
                                        Err(e) => {
                                            return Err(e);
                                        },
                                        Ok(m) => {
                                            payload = Some(RequestPayload::Income(m));
                                        },
                                    }
                                } else {
                                    payload = Some(RequestPayload::Health);
                                }
                                proof {
                                    fuel = (fuel - 1) as nat;
                                }
                                pos = start + len;
                            },
                        }
                    } else {
                        match skip_field(b, pos + kn, wt) {
                            Err(e) => {
                                return Err(e);
                            },
                            Ok(n) => {
                                proof {
                                    assert(b@.skip(pos + kn).skip(n as int) =~= b@.skip(
                                        pos + kn + n,
                                    ));
                                    fuel = (fuel - 1) as nat;
                                }
                                pos = pos + kn + n;
                            },
                        }
                    }
                },
            }
        }
    }
}

} // verus!
