use prover::gateway::{
    delete_response, get_response, list_response, submit_request, submit_response,
    validate_submission, Body, DispatchError, HttpReply,
};
use prover::noun::Noun;
use prover::protocol::{SnarkSummary, Submission};

fn atom(bytes: &[u8]) -> Noun {
    Noun::Atom(bytes.to_vec())
}

fn cell(h: Noun, t: Noun) -> Noun {
    Noun::Cell(Box::new(h), Box::new(t))
}

fn valid_submission() -> Submission {
    Submission {
        proof_data: "aGVsbG8=".to_string(),
        public_inputs: vec![],
        verification_key: "dms=".to_string(),
        proof_system: "groth16".to_string(),
        submitter: "alice".to_string(),
        notes: None,
    }
}

fn failure(status: u16, message: &str) -> HttpReply {
    HttpReply {
        status,
        body: Body::Failure {
            error: message.to_string(),
        },
    }
}

#[test]
fn empty_proof_is_rejected_before_encoding() {
    let mut sub = valid_submission();
    sub.proof_data = String::new();
    assert_eq!(
        submit_request(&sub),
        Err(failure(400, "Proof data is required"))
    );
}

#[test]
fn empty_verification_key_is_rejected() {
    let mut sub = valid_submission();
    sub.verification_key = String::new();
    assert_eq!(
        submit_request(&sub),
        Err(failure(400, "Verification key is required"))
    );
}

#[test]
fn empty_submitter_is_rejected() {
    let mut sub = valid_submission();
    sub.submitter = String::new();
    assert_eq!(
        submit_request(&sub),
        Err(failure(400, "Submitter is required"))
    );
}

#[test]
fn non_base64_proof_is_rejected() {
    let mut sub = valid_submission();
    sub.proof_data = "!!!".to_string();
    assert_eq!(
        submit_request(&sub),
        Err(failure(400, "Invalid Base64 in proof data"))
    );
}

#[test]
fn non_base64_verification_key_is_rejected() {
    let mut sub = valid_submission();
    sub.verification_key = "not base64".to_string();
    assert_eq!(
        submit_request(&sub),
        Err(failure(400, "Invalid Base64 in verification key"))
    );
}

#[test]
fn empty_checks_precede_base64_checks() {
    let mut sub = valid_submission();
    sub.proof_data = String::new();
    sub.verification_key = "not base64".to_string();
    assert_eq!(validate_submission(&sub), Some("Proof data is required".to_string()));
}

#[test]
fn valid_submission_passes_validation() {
    assert_eq!(validate_submission(&valid_submission()), None);
}

#[test]
fn valid_submission_encodes_submit_cause() {
    let n = submit_request(&valid_submission()).expect("a valid submission must encode");
    match n {
        Noun::Cell(h, _) => assert_eq!(*h, atom(b"submit-snark")),
        Noun::Atom(_) => panic!("submit cause must be a cell"),
    }
}

#[test]
fn submitted_snark_gets_created_with_id() {
    let sub = valid_submission();
    assert!(submit_request(&sub).is_ok());
    let effects = vec![cell(atom(b"snark-ack"), atom(&[1]))];
    let reply = submit_response(Ok(effects));
    assert_eq!(reply.status, 201);
    match reply.body {
        Body::Ack { success, id, message } => {
            assert!(success);
            assert_eq!(id, Some(1));
            assert_eq!(message, "SNARK submitted successfully");
        }
        other => panic!("expected an acknowledgment, got {:?}", other),
    }
}

#[test]
fn submit_falls_back_to_generic_created() {
    let reply = submit_response(Ok(vec![]));
    assert_eq!(reply.status, 201);
    match reply.body {
        Body::Ack { success, id, message } => {
            assert!(success);
            assert_eq!(id, None);
            assert_eq!(message, "SNARK submitted successfully");
        }
        other => panic!("expected an acknowledgment, got {:?}", other),
    }
}

#[test]
fn failed_submit_dispatch_is_server_error() {
    assert_eq!(
        submit_response(Err(DispatchError::Transport)),
        failure(500, "Failed to submit SNARK")
    );
    assert_eq!(
        submit_response(Err(DispatchError::Timeout)),
        failure(500, "Failed to submit SNARK")
    );
}

#[test]
fn unknown_id_reads_as_not_found() {
    assert_eq!(
        get_response(Err(DispatchError::Rejected)),
        failure(404, "SNARK not found")
    );
}

#[test]
fn missing_effect_reads_as_not_found() {
    let effects = vec![cell(atom(b"snark-missing"), atom(&[0x0F, 0x42, 0x3F]))];
    assert_eq!(get_response(Ok(effects)), failure(404, "SNARK not found"));
}

#[test]
fn get_transport_failure_is_server_error() {
    assert_eq!(
        get_response(Err(DispatchError::Transport)),
        failure(500, "Failed to fetch SNARK")
    );
}

#[test]
fn get_with_unreadable_effects_is_server_error() {
    assert_eq!(
        get_response(Ok(vec![atom(b"noise")])),
        failure(500, "Invalid response from kernel")
    );
}

#[test]
fn get_detail_effect_passes_through() {
    let payload = cell(
        atom(&[9]),
        cell(
            atom(b"p"),
            cell(
                atom(b""),
                cell(
                    atom(b"v"),
                    cell(
                        atom(b"groth16"),
                        cell(
                            atom(b"alice"),
                            cell(
                                atom(b"2024-01-01"),
                                cell(atom(b"verified"), cell(atom(b""), atom(b""))),
                            ),
                        ),
                    ),
                ),
            ),
        ),
    );
    let reply = get_response(Ok(vec![cell(atom(b"snark-detail"), payload)]));
    assert_eq!(reply.status, 200);
    match reply.body {
        Body::Detail(d) => {
            assert_eq!(d.id, 9);
            assert_eq!(d.status, "verified");
        }
        other => panic!("expected a detail body, got {:?}", other),
    }
}

#[test]
fn empty_ledger_lists_as_empty() {
    let reply = list_response(Ok(vec![]));
    assert_eq!(reply.status, 200);
    match reply.body {
        Body::Listing { snarks, total } => {
            assert_eq!(snarks, Vec::<SnarkSummary>::new());
            assert_eq!(total, 0);
        }
        other => panic!("expected a listing, got {:?}", other),
    }
}

#[test]
fn failed_list_dispatch_is_server_error() {
    assert_eq!(
        list_response(Err(DispatchError::Transport)),
        failure(500, "Failed to list SNARKs")
    );
}

#[test]
fn deleted_effect_acknowledges_with_id() {
    let effects = vec![cell(atom(b"snark-deleted"), atom(&[5]))];
    let reply = delete_response(Ok(effects));
    assert_eq!(reply.status, 200);
    match reply.body {
        Body::Ack { success, id, message } => {
            assert!(success);
            assert_eq!(id, Some(5));
            assert_eq!(message, "SNARK deleted");
        }
        other => panic!("expected an acknowledgment, got {:?}", other),
    }
}

#[test]
fn delete_falls_back_to_generic_acknowledgment() {
    let reply = delete_response(Ok(vec![]));
    assert_eq!(reply.status, 200);
    match reply.body {
        Body::Ack { id, .. } => assert_eq!(id, None),
        other => panic!("expected an acknowledgment, got {:?}", other),
    }
}

#[test]
fn delete_of_unknown_id_is_not_found() {
    assert_eq!(
        delete_response(Err(DispatchError::Rejected)),
        failure(404, "SNARK not found")
    );
}

#[test]
fn recognized_reply_is_the_same_across_endpoints() {
    let a = submit_response(Ok(vec![cell(atom(b"snark-ack"), atom(&[8]))]));
    let b = get_response(Ok(vec![cell(atom(b"snark-ack"), atom(&[8]))]));
    assert_eq!(a, b);
}

#[test]
fn list_effect_passes_through_to_listing() {
    let summary = cell(
        atom(&[4]),
        cell(
            atom(b"plonk"),
            cell(
                atom(b"carol"),
                cell(atom(b"2024-03-03"), cell(atom(b"verified"), atom(b""))),
            ),
        ),
    );
    let eff = cell(atom(b"snark-list"), cell(atom(&[1]), cell(summary, atom(b""))));
    let reply = list_response(Ok(vec![eff]));
    assert_eq!(reply.status, 200);
    match reply.body {
        Body::Listing { snarks, total } => {
            assert_eq!(total, 1);
            assert_eq!(snarks.len(), 1);
            assert_eq!(snarks[0].id, 4);
            assert_eq!(snarks[0].proof_system, "plonk");
            assert_eq!(snarks[0].status, "verified");
        }
        other => panic!("expected a listing, got {:?}", other),
    }
}
