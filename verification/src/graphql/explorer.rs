//! The interactive explorer page, rendered for the address of the query
//! endpoint.

use vstd::prelude::*;

verus! {

/// The HTML page that `juniper::http::graphiql::graphiql_source` renders
/// for the endpoint `endpoint`. The page is fixed text around the
/// endpoint's address, so it depends on nothing else.
pub uninterp spec fn graphiql_page(endpoint: Seq<char>) -> Seq<char>;

/// Whether `part` stands somewhere in `text`.
pub open spec fn holds(text: Seq<char>, part: Seq<char>) -> bool {
    exists|i: int|
        0 <= i && i + part.len() <= text.len() && #[trigger] text.subrange(i, i + part.len())
            == part
}

/// Calls `juniper::http::graphiql::graphiql_source`. The contract claims
/// that the page is a function of the endpoint, and that the endpoint
/// stands in it: the function formats a constant template with its
/// argument, which it puts in once, and reads nothing else.
#[verifier::external_body]
fn graphiql_source(endpoint: &str) -> (page: String)
    ensures
        page@ == graphiql_page(endpoint@),
        holds(page@, endpoint@),
{
    juniper::http::graphiql::graphiql_source(endpoint)
}

/// The explorer page for the query endpoint at `endpoint`: the page
/// that the query engine renders, with the endpoint's address in it.
pub fn explorer_page(endpoint: &str) -> (page: String)
    ensures
        page@ == graphiql_page(endpoint@),
        holds(page@, endpoint@),
{
    graphiql_source(endpoint)
}

} // verus!
