use backend::orders::{respond_to_orders, Upstream, UpstreamReply};
use backend::response::{Envelope, ErrorKind};

fn message_of<D>(r: &Envelope<D>) -> (ErrorKind, String) {
    match r {
        Envelope::Failure(e) => (e.kind(), e.message().clone()),
        Envelope::Success(_) => panic!("expected a failure"),
    }
}

#[test]
fn data_without_errors_passes_through() {
    let data = vec![("order".to_string(), 3u64), ("order".to_string(), 5u64)];
    let reply = UpstreamReply { data: Some(data.clone()), errors: Vec::new() };
    let r = respond_to_orders(Upstream::Answered(reply));
    assert_eq!(r.status(), 200);
    match r {
        Envelope::Success(d) => assert_eq!(d, data),
        Envelope::Failure(_) => panic!("expected a success"),
    }
}

#[test]
fn reported_errors_withhold_data() {
    let reply = UpstreamReply {
        data: Some("partial".to_string()),
        errors: vec!["field not found".to_string()],
    };
    let r = respond_to_orders(Upstream::Answered(reply));
    assert_eq!(r.status(), 500);
    assert!(!r.is_success());
    let (kind, msg) = message_of(&r);
    assert_eq!(kind, ErrorKind::Internal);
    assert_eq!(msg, "upstream reported errors");
    assert!(!msg.contains("partial"));
}

#[test]
fn unreachable_upstream_is_internal() {
    let r: Envelope<String> = respond_to_orders(Upstream::Unreachable("connection refused".to_string()));
    assert_eq!(r.status(), 500);
    let (kind, msg) = message_of(&r);
    assert_eq!(kind, ErrorKind::Internal);
    assert_eq!(msg, "could not reach upstream");
}

#[test]
fn undecodable_body_is_internal() {
    let r: Envelope<String> = respond_to_orders(Upstream::Undecodable("expected value at line 1".to_string()));
    assert_eq!(r.status(), 500);
    assert_eq!(message_of(&r).1, "could not decode upstream response");
}

#[test]
fn missing_data_is_not_found() {
    let reply: UpstreamReply<String> = UpstreamReply { data: None, errors: Vec::new() };
    let r = respond_to_orders(Upstream::Answered(reply));
    assert_eq!(r.status(), 404);
    let (kind, msg) = message_of(&r);
    assert_eq!(kind, ErrorKind::NotFound);
    assert_eq!(msg, "no data");
}

#[test]
fn errors_without_data_are_internal() {
    let reply: UpstreamReply<String> = UpstreamReply { data: None, errors: vec!["boom".to_string()] };
    let r = respond_to_orders(Upstream::Answered(reply));
    assert_eq!(r.status(), 500);
    assert_eq!(message_of(&r).1, "upstream reported errors");
}
