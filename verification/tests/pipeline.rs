use enclave_core::dispatch::process;
use enclave_core::messages::{
    EnclaveRequest, EnclaveResponse, GovernanceRequest, IdentityRequest, IncomeRequest,
    RequestPayload,
};

fn request(id: &str, payload: Option<RequestPayload>) -> EnclaveRequest {
    EnclaveRequest { request_id: id.to_string(), payload }
}

fn identity(attribute_id: &str) -> Option<RequestPayload> {
    Some(RequestPayload::Identity(IdentityRequest {
        attribute_id: attribute_id.to_string(),
        encrypted_identity_seed: vec![1, 2, 3],
    }))
}

fn run(req: &EnclaveRequest) -> EnclaveResponse {
    let out = process(&req.encode());
    EnclaveResponse::decode(&out).expect("response bytes must decode")
}

#[test]
fn identity_invalid_attribute_fails() {
    let req = request("r-1", identity("invalid"));
    let resp = run(&req);
    assert_eq!(resp.request_id, "r-1");
    assert!(!resp.success);
    assert_eq!(resp.error_message, "Invalid attribute");
    assert!(resp.proof_data.is_empty());
}

#[test]
fn identity_age_over_18_succeeds() {
    let req = request("r-2", identity("age_over_18"));
    let resp = run(&req);
    assert_eq!(resp.request_id, "r-2");
    assert!(resp.success);
    assert_eq!(resp.error_message, "");
    assert_eq!(resp.proof_data, b"identity_proof_for_age_over_18".to_vec());
    assert!(!resp.proof_data.is_empty());
}

#[test]
fn no_payload_yields_placeholder_proof() {
    let req = request("r-3", None);
    let resp = run(&req);
    assert_eq!(resp.request_id, "r-3");
    assert!(resp.success);
    assert_eq!(resp.proof_data, b"mock_zk_proof_data".to_vec());
}

#[test]
fn health_payload_yields_placeholder_proof() {
    let req = request("r-h", Some(RequestPayload::Health));
    let resp = run(&req);
    assert!(resp.success);
    assert_eq!(resp.proof_data, b"mock_zk_proof_data".to_vec());
}

#[test]
fn malformed_input_yields_failure_response() {
    // a truncated envelope: a string field announcing five bytes, holding one
    let resp_bytes = process(&[0x0a, 0x05, 0x01]);
    let resp = EnclaveResponse::decode(&resp_bytes).expect("response bytes must decode");
    assert_eq!(resp.request_id, "unknown");
    assert!(!resp.success);
    assert!(resp.error_message.contains("Failed to decode request"));
    assert!(resp.proof_data.is_empty());
}

#[test]
fn governance_proof_is_distinguishable() {
    let req = request(
        "r-5",
        Some(RequestPayload::Governance(GovernanceRequest {
            proposal_id: "prop_7".to_string(),
            vote_choice: "yes".to_string(),
            identity_signature: vec![9, 9],
        })),
    );
    let resp = run(&req);
    assert!(resp.success);
    assert_eq!(resp.proof_data, b"mpc_vote_share_for_prop_7".to_vec());

    let id_resp = run(&request("r-5", identity("prop_7")));
    let income_resp = run(&request(
        "r-5",
        Some(RequestPayload::Income(IncomeRequest {
            amount: 7,
            receiver_pubkey: "prop_7".to_string(),
        })),
    ));
    assert_ne!(resp.proof_data, id_resp.proof_data);
    assert_ne!(resp.proof_data, income_resp.proof_data);
}

#[test]
fn income_proof_includes_amount() {
    let req = request(
        "r-6",
        Some(RequestPayload::Income(IncomeRequest {
            amount: 1234,
            receiver_pubkey: "pubkey9".to_string(),
        })),
    );
    let resp = run(&req);
    assert!(resp.success);
    assert_eq!(resp.proof_data, b"zk_income_proof_for_pubkey9_amount_1234".to_vec());
}

#[test]
fn income_proof_negative_amount() {
    let req = request(
        "r-7",
        Some(RequestPayload::Income(IncomeRequest {
            amount: -5,
            receiver_pubkey: "k".to_string(),
        })),
    );
    let resp = run(&req);
    assert_eq!(resp.proof_data, b"zk_income_proof_for_k_amount_-5".to_vec());
}

#[test]
fn dispatch_is_deterministic() {
    let req = request("same", identity("age_over_18"));
    let first = run(&req);
    let second = run(&req);
    assert_eq!(first, second);
    assert_eq!(first.proof_data, second.proof_data);
}

#[test]
fn process_is_total_on_arbitrary_bytes() {
    let inputs: Vec<Vec<u8>> = vec![
        vec![],
        vec![0xff; 64],
        vec![0x80; 64],
        vec![0x0a],
        vec![0x00, 0x01, 0x02],
        (0u8..=255).collect(),
    ];
    for input in inputs {
        let out = process(&input);
        let resp = EnclaveResponse::decode(&out).expect("response bytes must decode");
        if !resp.success {
            assert!(!resp.error_message.is_empty());
        }
    }
}
