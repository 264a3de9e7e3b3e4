use webhook2amqp::admission::{
    apply_decision, decision_of, fault_reply, not_found_reply, payload_for, rejected_reply,
    reply_content_type_value, reply_for_send, route_matches, str_eq, AdmissionOutcome, HttpReply,
    RoutingDecision,
};
use webhook2amqp::body::{AdmissionError, BodyCollector};
use webhook2amqp::max_body_size;
use webhook2amqp::record::LuaRequest;

fn sample_record(mime_type: Option<String>, body: Vec<u8>) -> LuaRequest {
    LuaRequest {
        request_id: String::from("id-123"),
        url: String::from("/webhook"),
        method: String::from("POST"),
        origin: String::from("127.0.0.1:9999"),
        headers: Vec::new(),
        mime_type,
        body,
    }
}

#[test]
fn maps_handler_outcomes_to_decisions() {
    assert_eq!(
        decision_of(Ok(Some(String::from("q1")))),
        RoutingDecision::Accept(String::from("q1"))
    );
    assert_eq!(decision_of(Ok(None)), RoutingDecision::Reject);
    assert_eq!(
        decision_of(Err(String::from("boom"))),
        RoutingDecision::Error(String::from("boom"))
    );
}

#[test]
fn replies_carry_status_token_and_id() {
    let id = String::from("id-9");
    assert_eq!(
        rejected_reply(&id),
        HttpReply { status: 400, request_id: id.clone(), body: String::from("FAIL") }
    );
    assert_eq!(
        fault_reply(&id),
        HttpReply { status: 500, request_id: id.clone(), body: String::from("ERROR") }
    );
    assert_eq!(
        not_found_reply(&id),
        HttpReply { status: 404, request_id: id.clone(), body: String::new() }
    );
}

#[test]
fn send_outcome_maps_to_200_or_503() {
    let id = String::from("id-1");
    let ok = reply_for_send(&id, true);
    assert_eq!((ok.status, ok.body.as_str()), (200, "OK"));
    assert_eq!(ok.request_id, "id-1");
    let closed = reply_for_send(&id, false);
    assert_eq!((closed.status, closed.body.as_str()), (503, "FAIL"));
    assert_eq!(closed.request_id, "id-1");
}

#[test]
fn route_accepts_only_webhook_path() {
    assert!(route_matches("/webhook"));
    assert!(!route_matches("/"));
    assert!(!route_matches("/webhook/extra"));
    assert!(!route_matches("/health"));
}

#[test]
fn string_equality_is_exact() {
    assert!(str_eq("abc", "abc"));
    assert!(!str_eq("abc", "abd"));
    assert!(!str_eq("abc", "ab"));
}

#[test]
fn reply_content_type_is_plain_text() {
    assert_eq!(reply_content_type_value(), "text/plain; charset=utf-8");
}

#[test]
fn accepted_request_yields_one_payload() {
    let rec = sample_record(Some(String::from("text/plain")), b"payload".to_vec());
    match apply_decision(&rec, RoutingDecision::Accept(String::from("jobs"))) {
        AdmissionOutcome::Enqueue(p) => {
            assert_eq!(p.request_id, "id-123");
            assert_eq!(p.qname, "jobs");
            assert_eq!(p.mime_type, "text/plain");
            assert_eq!(p.body, b"payload".to_vec());
        },
        AdmissionOutcome::Respond(_) => panic!("accept must enqueue"),
    }
}

#[test]
fn payload_defaults_to_octet_stream() {
    let rec = sample_record(None, Vec::new());
    let p = payload_for(&rec, String::from("q"));
    assert_eq!(p.mime_type, "application/octet-stream");
}

#[test]
fn reject_produces_400_and_no_payload() {
    let rec = sample_record(None, Vec::new());
    match apply_decision(&rec, RoutingDecision::Reject) {
        AdmissionOutcome::Respond(h) => {
            assert_eq!((h.status, h.body.as_str()), (400, "FAIL"));
            assert_eq!(h.request_id, "id-123");
        },
        AdmissionOutcome::Enqueue(_) => panic!("reject must not enqueue"),
    }
}

#[test]
fn fault_produces_500_and_no_payload() {
    let rec = sample_record(None, Vec::new());
    match apply_decision(&rec, RoutingDecision::Error(String::from("boom"))) {
        AdmissionOutcome::Respond(h) => {
            assert_eq!((h.status, h.body.as_str()), (500, "ERROR"));
        },
        AdmissionOutcome::Enqueue(_) => panic!("fault must not enqueue"),
    }
}

#[test]
fn collector_rejects_oversized_declared_size() {
    assert_eq!(
        BodyCollector::start(max_body_size() + 1).err(),
        Some(AdmissionError::BodyTooLarge)
    );
    assert!(BodyCollector::start(max_body_size()).is_ok());
}

#[test]
fn collector_accumulates_chunks_in_order() {
    let mut c = BodyCollector::start(0).unwrap();
    c.push_chunk(b"hello ").unwrap();
    c.push_chunk(b"").unwrap();
    c.push_chunk(b"world").unwrap();
    assert_eq!(c.finish(), b"hello world".to_vec());
}

#[test]
fn collector_rejects_observed_overflow() {
    let mut c = BodyCollector::start(0).unwrap();
    let big = vec![0u8; max_body_size()];
    c.push_chunk(&big).unwrap();
    assert_eq!(c.push_chunk(b"x"), Err(AdmissionError::BodyTooLarge));
    // nothing of the refused chunk is kept
    assert_eq!(c.finish().len(), max_body_size());
}
