//! Search requests and results.

use vstd::prelude::*;

verus! {

/// A point in time, as seconds since the Unix epoch plus nanoseconds.
#[derive(Clone, Copy, Debug, PartialEq, Eq, Structural)]
pub struct Timestamp {
    pub unix_seconds: i64,
    pub subsec_nanos: u32,
}

/// One entry of a search answer.
pub struct SearchResult {
    pub title: String,
    pub url: String,
    pub description: String,
    pub source: Option<String>,
    pub timestamp: Option<Timestamp>,
}

/// Which agent answers a request.
#[derive(Clone, Copy, Debug, PartialEq, Eq, Structural)]
pub enum SearchKind {
    Web,
    News,
}

/// A search request as the API receives it.
pub struct SearchRequest {
    pub query: String,
    pub num_results: usize,
    pub summary_length: usize,
    pub search_type: String,
}

/// The number of results asked for when a request names none.
pub fn default_num_results() -> (res: usize)
    ensures
        res == 10,
{
    10
}

/// The summary length used when a request names none.
pub fn default_summary_length() -> (res: usize)
    ensures
        res == 300,
{
    300
}

/// The search type used when a request names none.
pub fn default_search_type() -> (res: String)
    ensures
        res@ == "web"@,
{
    String::from_str("web")
}

} // verus!
