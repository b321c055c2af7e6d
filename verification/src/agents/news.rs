//! The news agent.

use vstd::prelude::*;
use crate::models::SearchResult;
use crate::tools::web_news::{is_clock_time, is_news_entry, news_count, search_news};

verus! {

/// Answers news requests.
pub struct NewsAgent {
    pub num_results: usize,
}

impl NewsAgent {
    /// An agent that asks for `num_results` news entries.
    pub fn new(num_results: usize) -> (res: NewsAgent)
        ensures
            res.num_results == num_results,
    {
        NewsAgent { num_results }
    }

    /// The news answer for the query `req`.
    pub fn process_request(&self, req: &str) -> (res: Vec<SearchResult>)
        ensures
            res.len() == news_count(self.num_results as nat),
            forall|i: int|
                0 <= i < res.len() ==> is_news_entry(#[trigger] res[i], req@, i as nat)
                    && is_clock_time(res[i].timestamp),
    {
        search_news(req, self.num_results)
    }
}

} // verus!
