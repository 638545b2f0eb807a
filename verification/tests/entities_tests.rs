use llm_engine_endpoint::entities::CompletionResponse;
use llm_engine_endpoint::meta::{fresh_request_id, unix_time_seconds};

#[test]
fn completion_response_keeps_its_fields() {
    let r = CompletionResponse::new(
        "id-1".to_string(),
        "some text".to_string(),
        1700000000,
        "Phi-3".to_string(),
    );
    assert_eq!(r.id, "id-1");
    assert_eq!(r.object, "some text");
    assert_eq!(r.created, 1700000000);
    assert_eq!(r.model, "Phi-3");
}

#[test]
fn request_ids_are_hyphenated_and_distinct() {
    let a = fresh_request_id();
    let b = fresh_request_id();
    assert_eq!(a.len(), 36);
    assert_eq!(b.len(), 36);
    assert_ne!(a, b);
}

#[test]
fn unix_time_is_not_negative() {
    assert!(unix_time_seconds() >= 0);
}
