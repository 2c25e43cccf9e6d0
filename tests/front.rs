use graphql_bridge::front::{cors_headers, refusal_status, screen, Admission, Inbound, Method, Refusal};

fn inbound(method: Method, path: &str, origin: Option<&str>, requested: Option<Method>) -> Inbound {
    Inbound {
        method,
        path: path.to_string(),
        origin: origin.map(|o| o.to_string()),
        requested_method: requested,
    }
}

#[test]
fn post_to_query_path_reaches_the_pool() {
    assert_eq!(screen(&inbound(Method::Post, "/graphql", None, None)), Admission::Query);
    let a = screen(&inbound(Method::Post, "/graphql", Some("http://localhost:8080"), None));
    assert_eq!(a, Admission::Query);
    let h = cors_headers(a);
    assert_eq!(h.allow_origin.as_deref(), Some("http://localhost:8080"));
    assert!(h.allow_credentials);
}

#[test]
fn disallowed_method_never_reaches_the_pool() {
    for m in [Method::Get, Method::Other] {
        let a = screen(&inbound(m, "/graphql", None, None));
        assert_eq!(a, Admission::Refused(Refusal::MethodNotAllowed));
        assert_eq!(refusal_status(Refusal::MethodNotAllowed), 405);
    }
    let a = screen(&inbound(Method::Post, "/graphiql", None, None));
    assert_eq!(a, Admission::Refused(Refusal::MethodNotAllowed));
}

#[test]
fn foreign_origin_gets_no_grant() {
    let a = screen(&inbound(Method::Post, "/graphql", Some("http://evil.example"), None));
    assert_eq!(a, Admission::Refused(Refusal::OriginNotAllowed));
    assert_eq!(refusal_status(Refusal::OriginNotAllowed), 400);
    let h = cors_headers(a);
    assert_eq!(h.allow_origin, None);
    assert!(!h.allow_credentials);
    let p = screen(&inbound(Method::Options, "/graphql", Some("http://evil.example"), Some(Method::Post)));
    assert_eq!(p, Admission::Refused(Refusal::OriginNotAllowed));
    assert_eq!(cors_headers(p).allow_origin, None);
}

#[test]
fn preflight_from_allowed_origin() {
    let a = screen(&inbound(Method::Options, "/graphql", Some("http://localhost:8080"), Some(Method::Post)));
    assert_eq!(a, Admission::Preflight);
    let h = cors_headers(a);
    assert_eq!(h.allow_origin.as_deref(), Some("http://localhost:8080"));
    assert_eq!(h.allow_methods.as_deref(), Some("POST"));
    assert_eq!(h.max_age, Some(3600));
    assert!(h.allow_credentials);
    let bad = screen(&inbound(Method::Options, "/graphql", Some("http://localhost:8080"), Some(Method::Get)));
    assert_eq!(bad, Admission::Refused(Refusal::PreflightMethodNotAllowed));
    let none = screen(&inbound(Method::Options, "/graphql", None, Some(Method::Post)));
    assert_eq!(none, Admission::Refused(Refusal::OriginNotAllowed));
}

#[test]
fn explorer_and_unknown_paths() {
    assert_eq!(screen(&inbound(Method::Get, "/graphiql", None, None)), Admission::Explorer);
    let a = screen(&inbound(Method::Post, "/users", None, None));
    assert_eq!(a, Admission::Refused(Refusal::NotFound));
    assert_eq!(refusal_status(Refusal::NotFound), 404);
}
