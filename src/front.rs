//! Admission at the inbound endpoint: which requests reach the query pool,
//! which are answered here, and which cross-origin headers each reply gets.
use vstd::prelude::*;
use vstd::string::StringExecFns;

verus! {

/// The longest time, in seconds, a client may cache a preflight answer.
pub const PREFLIGHT_MAX_AGE: u32 = 3600;

/// Status of a refused cross-origin request.
pub const STATUS_BAD_REQUEST: u16 = 400;

/// Status of a request for an unknown path.
pub const STATUS_NOT_FOUND: u16 = 404;

/// Status of a request with a method its path does not take.
pub const STATUS_METHOD_NOT_ALLOWED: u16 = 405;

/// The request methods the front door tells apart.
#[derive(PartialEq, Eq, Structural, Debug, Clone, Copy)]
pub enum Method {
    Get,
    Post,
    Options,
    Other,
}

/// What the front door reads of an inbound request.
#[derive(Debug, Clone)]
pub struct Inbound {
    pub method: Method,
    pub path: String,
    /// The `Origin` header, if the request carries one.
    pub origin: Option<String>,
    /// The `Access-Control-Request-Method` header of a preflight.
    pub requested_method: Option<Method>,
}

/// Why a request is turned away before it reaches any pool.
#[derive(PartialEq, Eq, Structural, Debug, Clone, Copy)]
pub enum Refusal {
    /// The request comes from an origin that is not allowed.
    OriginNotAllowed,
    /// A preflight asks for a method that is not allowed.
    PreflightMethodNotAllowed,
    /// The path does not take this method.
    MethodNotAllowed,
    /// No such path.
    NotFound,
}

/// What the front door does with a request.
#[derive(PartialEq, Eq, Structural, Debug, Clone, Copy)]
pub enum Admission {
    /// Hand the payload to the query pool.
    Query,
    /// Serve the interactive explorer page.
    Explorer,
    /// Answer a cross-origin preflight.
    Preflight,
    /// Refuse the request.
    Refused(Refusal),
}

/// The cross-origin headers a reply carries.
#[derive(Debug, Clone)]
pub struct CorsHeaders {
    pub allow_origin: Option<String>,
    pub allow_credentials: bool,
    pub allow_methods: Option<String>,
    pub max_age: Option<u32>,
}

/// The mathematical form of [`CorsHeaders`].
pub struct CorsView {
    pub allow_origin: Option<Seq<char>>,
    pub allow_credentials: bool,
    pub allow_methods: Option<Seq<char>>,
    pub max_age: Option<u32>,
}

/// The text of an optional header value.
pub open spec fn opt_view(s: Option<String>) -> Option<Seq<char>> {
    match s {
        Some(v) => Some(v@),
        None => None,
    }
}

impl View for CorsHeaders {
    type V = CorsView;

    open spec fn view(&self) -> CorsView {
        CorsView {
            allow_origin: opt_view(self.allow_origin),
            allow_credentials: self.allow_credentials,
            allow_methods: opt_view(self.allow_methods),
            max_age: self.max_age,
        }
    }
}

/// The one origin allowed to call the endpoint.
pub open spec fn allowed_origin() -> Seq<char> {
    "http://localhost:8080"@
}

/// The path of the query endpoint.
pub open spec fn query_path() -> Seq<char> {
    "/graphql"@
}

/// The path of the explorer page.
pub open spec fn explorer_path() -> Seq<char> {
    "/graphiql"@
}

/// The methods a preflight may ask for, as the reply lists them.
pub open spec fn allowed_methods_text() -> Seq<char> {
    "POST"@
}

/// An origin header that is absent or names the allowed origin.
pub open spec fn origin_acceptable(origin: Option<Seq<char>>) -> bool {
    origin is None || origin == Some(allowed_origin())
}

/// The admission rules. Unknown paths are not found. A preflight must come
/// from the allowed origin and ask for `POST`. Any other request that names
/// an origin must name the allowed one. The query path takes `POST` only and
/// the explorer path `GET` only.
pub open spec fn admission_spec(
    method: Method,
    path: Seq<char>,
    origin: Option<Seq<char>>,
    requested: Option<Method>,
) -> Admission {
    if path != query_path() && path != explorer_path() {
        Admission::Refused(Refusal::NotFound)
    } else if method == Method::Options {
        if origin != Some(allowed_origin()) {
            Admission::Refused(Refusal::OriginNotAllowed)
        } else if requested != Some(Method::Post) {
            Admission::Refused(Refusal::PreflightMethodNotAllowed)
        } else {
            Admission::Preflight
        }
    } else if !origin_acceptable(origin) {
        Admission::Refused(Refusal::OriginNotAllowed)
    } else if path == query_path() {
        if method == Method::Post {
            Admission::Query
        } else {
            Admission::Refused(Refusal::MethodNotAllowed)
        }
    } else if method == Method::Get {
        Admission::Explorer
    } else {
        Admission::Refused(Refusal::MethodNotAllowed)
    }
}

/// The admission of a request.
pub open spec fn admission_of(req: Inbound) -> Admission {
    admission_spec(req.method, req.path@, opt_view(req.origin), req.requested_method)
}

/// The cross-origin headers for an admission. A preflight answer grants the
/// allowed origin, credentials, the allowed methods and the cache time; an
/// admitted request grants the allowed origin and credentials; a refusal
/// grants nothing.
pub open spec fn cors_spec(a: Admission) -> CorsView {
    match a {
        Admission::Preflight => CorsView {
            allow_origin: Some(allowed_origin()),
            allow_credentials: true,
            allow_methods: Some(allowed_methods_text()),
            max_age: Some(PREFLIGHT_MAX_AGE),
        },
        Admission::Query | Admission::Explorer => CorsView {
            allow_origin: Some(allowed_origin()),
            allow_credentials: true,
            allow_methods: None,
            max_age: None,
        },
        Admission::Refused(_) => CorsView {
            allow_origin: None,
            allow_credentials: false,
            allow_methods: None,
            max_age: None,
        },
    }
}

/// The status sent with a refusal.
pub open spec fn refusal_status_spec(r: Refusal) -> u16 {
    match r {
        Refusal::OriginNotAllowed | Refusal::PreflightMethodNotAllowed => STATUS_BAD_REQUEST,
        Refusal::MethodNotAllowed => STATUS_METHOD_NOT_ALLOWED,
        Refusal::NotFound => STATUS_NOT_FOUND,
    }
}

fn same_text(a: &String, literal: &str) -> (r: bool)
    ensures
        r == (a@ == literal@),
{
    let b = String::from_str(literal);
    *a == b
}

/// Decides what to do with an inbound request.
pub fn screen(req: &Inbound) -> (r: Admission)
    ensures
        r == admission_of(*req),
{
    let is_query = same_text(&req.path, "/graphql");
    let is_explorer = same_text(&req.path, "/graphiql");
    if !is_query && !is_explorer {
        return Admission::Refused(Refusal::NotFound);
    }
    let origin_allowed = match &req.origin {
        Some(o) => same_text(o, "http://localhost:8080"),
        None => false,
    };
    if req.method == Method::Options {
        if !origin_allowed {
            Admission::Refused(Refusal::OriginNotAllowed)
        } else if req.requested_method != Some(Method::Post) {
            Admission::Refused(Refusal::PreflightMethodNotAllowed)
        } else {
            Admission::Preflight
        }
    } else if req.origin.is_some() && !origin_allowed {
        Admission::Refused(Refusal::OriginNotAllowed)
    } else if is_query {
        if req.method == Method::Post {
            Admission::Query
        } else {
            Admission::Refused(Refusal::MethodNotAllowed)
        }
    } else if req.method == Method::Get {
        Admission::Explorer
    } else {
        Admission::Refused(Refusal::MethodNotAllowed)
    }
}

/// The cross-origin headers for a reply to a request admitted as `a`.
pub fn cors_headers(a: Admission) -> (r: CorsHeaders)
    ensures
        r@ == cors_spec(a),
{
    match a {
        Admission::Preflight => CorsHeaders {
            allow_origin: Some(String::from_str("http://localhost:8080")),
            allow_credentials: true,
            allow_methods: Some(String::from_str("POST")),
            max_age: Some(PREFLIGHT_MAX_AGE),
        },
        Admission::Query | Admission::Explorer => CorsHeaders {
            allow_origin: Some(String::from_str("http://localhost:8080")),
            allow_credentials: true,
            allow_methods: None,
            max_age: None,
        },
        Admission::Refused(_) => CorsHeaders {
            allow_origin: None,
            allow_credentials: false,
            allow_methods: None,
            max_age: None,
        },
    }
}

/// The status sent with a refusal.
pub fn refusal_status(r: Refusal) -> (s: u16)
    ensures
        s == refusal_status_spec(r),
{
    match r {
        Refusal::OriginNotAllowed | Refusal::PreflightMethodNotAllowed => STATUS_BAD_REQUEST,
        Refusal::MethodNotAllowed => STATUS_METHOD_NOT_ALLOWED,
        Refusal::NotFound => STATUS_NOT_FOUND,
    }
}

/// Only a `POST` to the query path, from no origin or the allowed one,
/// reaches the query pool: a request with any other method is refused or
/// answered at the front door.
pub proof fn lemma_only_post_reaches_pool(
    method: Method,
    path: Seq<char>,
    origin: Option<Seq<char>>,
    requested: Option<Method>,
)
    ensures
        admission_spec(method, path, origin, requested) == Admission::Query <==> (method
            == Method::Post && path == query_path() && origin_acceptable(origin)),
        method != Method::Post ==> admission_spec(method, path, origin, requested)
            != Admission::Query,
{
    reveal_strlit("/graphql");
    reveal_strlit("/graphiql");
}

/// A request from an origin that is not allowed is refused and its reply
/// carries no cross-origin grant: neither its origin nor any other, and no
/// credentials.
pub proof fn lemma_foreign_origin_gets_no_grant(
    method: Method,
    path: Seq<char>,
    origin: Seq<char>,
    requested: Option<Method>,
)
    requires
        origin != allowed_origin(),
    ensures
        admission_spec(method, path, Some(origin), requested) is Refused,
        cors_spec(admission_spec(method, path, Some(origin), requested)).allow_origin is None,
        !cors_spec(admission_spec(method, path, Some(origin), requested)).allow_credentials,
{
}

} // verus!
