//! The interactive explorer page served beside the query endpoint.
use vstd::prelude::*;
use vstd::string::StringExecFns;
use crate::bridge::{Reply, ReplyView, STATUS_OK};

verus! {

/// The explorer page that juniper renders for a query endpoint URL.
pub uninterp spec fn graphiql_page(url: Seq<char>) -> Seq<char>;

/// Relies on juniper::http::graphiql::graphiql_source: it fills a fixed page
/// template with the endpoint URL, so the page depends on the URL alone.
#[verifier::external_body]
fn explorer_source(url: &str) -> (r: String)
    ensures
        r@ == graphiql_page(url@),
{
    juniper::http::graphiql::graphiql_source(url)
}

/// The content type of the explorer page.
pub open spec fn html_content_type() -> Seq<char> {
    "text/html; charset=utf-8"@
}

/// A successful reply carrying an HTML page.
pub fn html_reply(page: String) -> (r: Reply)
    ensures
        r@ == (ReplyView { status: STATUS_OK, content_type: Some(html_content_type()), body: page@ }),
{
    Reply {
        status: STATUS_OK,
        content_type: Some(String::from_str("text/html; charset=utf-8")),
        body: page,
    }
}

/// The reply that serves the explorer page pointed at `endpoint`.
pub fn explorer_reply(endpoint: &str) -> (r: Reply)
    ensures
        r@ == (ReplyView {
            status: STATUS_OK,
            content_type: Some(html_content_type()),
            body: graphiql_page(endpoint@),
        }),
{
    html_reply(explorer_source(endpoint))
}

} // verus!
