//! The message the query pool carries: a parsed GraphQL request, answered
//! with the wire text of the engine's response.
use vstd::prelude::*;
use crate::pool::WorkerPool;

verus! {

/// juniper's parsed request, carried through the pool without being read.
#[verifier::external_type_specification]
#[verifier::external_body]
pub struct ExGraphQLRequest(juniper::http::GraphQLRequest);

/// One query for the executor pool.
pub struct GraphQLData(pub juniper::http::GraphQLRequest);

/// The pool of schema executors: each request yields the wire text of the
/// engine's response.
pub type QueryPool = WorkerPool<GraphQLData, String>;

} // verus!
