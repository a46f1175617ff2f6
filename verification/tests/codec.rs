use enclave_core::handlers::i64_decimal;
use enclave_core::messages::{
    DecodeError, EnclaveRequest, EnclaveResponse, GovernanceRequest, IdentityRequest,
    IncomeRequest, RequestPayload,
};

#[test]
fn response_round_trip() {
    let resp = EnclaveResponse {
        request_id: "abc-123".to_string(),
        success: true,
        error_message: String::new(),
        proof_data: vec![0, 1, 2, 255],
    };
    let decoded = EnclaveResponse::decode(&resp.encode()).expect("round trip must decode");
    assert_eq!(decoded, resp);
}

#[test]
fn failure_response_round_trip() {
    let resp = EnclaveResponse {
        request_id: "unknown".to_string(),
        success: false,
        error_message: "some failure".to_string(),
        proof_data: vec![],
    };
    let decoded = EnclaveResponse::decode(&resp.encode()).expect("round trip must decode");
    assert_eq!(decoded, resp);
}

#[test]
fn request_round_trip_each_variant() {
    let payloads: Vec<Option<RequestPayload>> = vec![
        None,
        Some(RequestPayload::Identity(IdentityRequest {
            attribute_id: "age_over_18".to_string(),
            encrypted_identity_seed: vec![7, 8, 9],
        })),
        Some(RequestPayload::Governance(GovernanceRequest {
            proposal_id: "prop_7".to_string(),
            vote_choice: "no".to_string(),
            identity_signature: vec![1],
        })),
        Some(RequestPayload::Income(IncomeRequest {
            amount: -42,
            receiver_pubkey: "pk".to_string(),
        })),
        Some(RequestPayload::Health),
    ];
    for payload in payloads {
        let req = EnclaveRequest { request_id: "rt".to_string(), payload };
        let decoded = EnclaveRequest::decode(&req.encode()).expect("round trip must decode");
        assert_eq!(decoded, req);
    }
}

#[test]
fn multibyte_strings_survive_the_wire() {
    let req = EnclaveRequest {
        request_id: "r\u{e9}sum\u{e9}-\u{1f600}".to_string(),
        payload: Some(RequestPayload::Identity(IdentityRequest {
            attribute_id: "\u{fc}ber_18".to_string(),
            encrypted_identity_seed: vec![],
        })),
    };
    let decoded = EnclaveRequest::decode(&req.encode()).expect("round trip must decode");
    assert_eq!(decoded, req);
}

#[test]
fn empty_input_decodes_to_default_request() {
    let req = EnclaveRequest::decode(&[]).expect("an empty field stream is a valid message");
    assert_eq!(req.request_id, "");
    assert!(req.payload.is_none());
}

#[test]
fn unknown_fields_are_skipped() {
    // field 1: "abc"; then an unknown string field with tag 2, as an older
    // envelope revision carried
    let bytes = [0x0a, 3, b'a', b'b', b'c', 0x12, 3, b'x', b'y', b'z'];
    let req = EnclaveRequest::decode(&bytes).expect("unknown fields must be skipped");
    assert_eq!(req.request_id, "abc");
    assert!(req.payload.is_none());
}

#[test]
fn later_payload_field_wins() {
    // wire bytes holding both an identity slot and a governance slot: the
    // decoded envelope still holds exactly one variant, the later one
    let base = EnclaveRequest { request_id: "x".to_string(), payload: None }.encode();
    let with_identity = EnclaveRequest {
        request_id: "x".to_string(),
        payload: Some(RequestPayload::Identity(IdentityRequest {
            attribute_id: "a".to_string(),
            encrypted_identity_seed: vec![],
        })),
    }
    .encode();
    let with_governance = EnclaveRequest {
        request_id: "x".to_string(),
        payload: Some(RequestPayload::Governance(GovernanceRequest {
            proposal_id: "p".to_string(),
            vote_choice: "v".to_string(),
            identity_signature: vec![],
        })),
    }
    .encode();
    let mut bytes = with_identity.clone();
    bytes.extend_from_slice(&with_governance[base.len()..]);
    let req = EnclaveRequest::decode(&bytes).expect("both slots are wire-valid");
    match req.payload {
        Some(RequestPayload::Governance(g)) => assert_eq!(g.proposal_id, "p"),
        other => panic!("expected the later governance payload, got {:?}", other),
    }
}

#[test]
fn response_fields_decode_in_any_order() {
    // success flag first, then the identifier, an empty message and a blob
    let bytes = [0x10, 1, 0x0a, 2, b'h', b'i', 0x1a, 0, 0x22, 1, 0xab];
    let resp = EnclaveResponse::decode(&bytes).expect("fields may come in any order");
    assert!(resp.success);
    assert_eq!(resp.request_id, "hi");
    assert_eq!(resp.error_message, "");
    assert_eq!(resp.proof_data, vec![0xab]);
}

#[test]
fn truncated_input_is_rejected() {
    assert_eq!(EnclaveRequest::decode(&[0x0a, 0x05]), Err(DecodeError::Truncated));
}

#[test]
fn overlong_varint_is_rejected() {
    let bytes = [0x80, 0x80, 0x80, 0x80, 0x80, 0x80, 0x80, 0x80, 0x80, 0x80, 0x01];
    assert_eq!(EnclaveRequest::decode(&bytes), Err(DecodeError::VarintTooLong));
}

#[test]
fn reserved_tag_zero_is_rejected() {
    assert_eq!(EnclaveRequest::decode(&[0x02]), Err(DecodeError::InvalidTag));
}

#[test]
fn wrong_wire_type_is_rejected() {
    // tag 1 with the four-byte wire type: the identifier field must be
    // length-delimited
    assert_eq!(EnclaveRequest::decode(&[0x0d, 0, 0, 0, 0]), Err(DecodeError::InvalidWireType));
}

#[test]
fn invalid_utf8_is_rejected() {
    assert_eq!(EnclaveRequest::decode(&[0x0a, 1, 0xff]), Err(DecodeError::InvalidUtf8));
}

#[test]
fn nested_payload_errors_surface() {
    // identity slot whose sub-message holds a truncated string field
    let bytes = [0x22, 2, 0x0a, 9];
    assert_eq!(EnclaveRequest::decode(&bytes), Err(DecodeError::Truncated));
}

#[test]
fn decimal_rendering_is_exact() {
    assert_eq!(i64_decimal(0), b"0".to_vec());
    assert_eq!(i64_decimal(9), b"9".to_vec());
    assert_eq!(i64_decimal(10), b"10".to_vec());
    assert_eq!(i64_decimal(1234567890), b"1234567890".to_vec());
    assert_eq!(i64_decimal(-1), b"-1".to_vec());
    assert_eq!(i64_decimal(i64::MAX), b"9223372036854775807".to_vec());
    assert_eq!(i64_decimal(i64::MIN), b"-9223372036854775808".to_vec());
}

#[test]
fn error_messages_name_each_failure() {
    let errors = [
        DecodeError::Truncated,
        DecodeError::VarintTooLong,
        DecodeError::InvalidTag,
        DecodeError::InvalidWireType,
        DecodeError::InvalidUtf8,
    ];
    let mut seen: Vec<String> = Vec::new();
    for e in errors {
        let message = e.message();
        assert!(message.starts_with("Failed to decode request:"));
        assert!(!seen.contains(&message));
        seen.push(message);
    }
}
