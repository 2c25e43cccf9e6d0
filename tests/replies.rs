use graphql_bridge::bridge::{outcome_of, reply_for, resolution_of, HandlerError, Outcome, Resolution};
use graphql_bridge::explorer::{explorer_reply, html_reply};

#[test]
fn success_reply_carries_the_payload() {
    let text = "{\"data\":{\"human\":{\"name\":\"Luke\"}}}".to_string();
    let outcome = outcome_of::<String>(Ok(text.clone()));
    assert_eq!(outcome, Outcome::Done(text.clone()));
    let reply = reply_for(resolution_of(outcome));
    assert_eq!(reply.status, 200);
    assert_eq!(reply.content_type.as_deref(), Some("application/json"));
    assert_eq!(reply.body, text);
}

#[test]
fn execution_failure_reply_leaks_nothing() {
    let detail = "database is locked: /var/lib/app/test.db".to_string();
    let outcome = outcome_of::<String>(Err(HandlerError::Execution(detail.clone())));
    assert_eq!(outcome, Outcome::Failed);
    let reply = reply_for(resolution_of(outcome));
    assert_eq!(reply.status, 500);
    assert_eq!(reply.content_type, None);
    assert_eq!(reply.body, "");
    assert!(!reply.body.contains("locked"));
}

#[test]
fn transport_failure_reply_is_an_internal_error() {
    let reply = reply_for(Resolution::TransportFailure);
    assert_eq!(reply.status, 500);
    assert_eq!(reply.body, "");
}

#[test]
fn explorer_page_points_at_the_endpoint() {
    let endpoint = "http://127.0.0.1:8080/graphql";
    let reply = explorer_reply(endpoint);
    assert_eq!(reply.status, 200);
    assert_eq!(reply.content_type.as_deref(), Some("text/html; charset=utf-8"));
    assert!(reply.body.contains(endpoint));
    assert!(reply.body.len() > endpoint.len());
    assert_ne!(reply.body, endpoint);
}

#[test]
fn html_reply_keeps_the_page() {
    let reply = html_reply("<p>hi</p>".to_string());
    assert_eq!(reply.status, 200);
    assert_eq!(reply.body, "<p>hi</p>");
}
