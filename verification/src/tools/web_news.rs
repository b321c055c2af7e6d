//! The news search, which for now answers with links to a news search page.

use vstd::prelude::*;
use crate::encode::{url_encode, url_encoded};
use crate::models::{SearchResult, Timestamp};
use crate::text::{decimal, push_decimal};

verus! {

/// The current time (`chrono::Utc::now`), as seconds and nanoseconds since
/// the Unix epoch. The value is the system clock's, so only its range is
/// stated: `Utc::now` takes a `Duration` since the epoch (it panics on a clock
/// set before 1970), so the seconds are not negative and the nanoseconds are
/// those of a `Duration`, below one second.
#[verifier::external_body]
fn now_utc() -> (res: Timestamp)
    ensures
        res.unix_seconds >= 0,
        res.subsec_nanos < 1_000_000_000,
{
    let now = chrono::Utc::now();
    Timestamp { unix_seconds: now.timestamp(), subsec_nanos: now.timestamp_subsec_nanos() }
}

/// How many news entries a request for `num_results` yields: at least one, at most ten.
pub open spec fn news_count(num_results: nat) -> nat {
    if num_results < 1 {
        1
    } else if num_results > 10 {
        10
    } else {
        num_results
    }
}

/// The link every news entry for `query` points to.
pub open spec fn news_url(query: Seq<char>) -> Seq<char> {
    "https://www.bing.com/news/search?q="@ + url_encoded(query)
}

/// Entry `index` (counting from zero) of the news answer for `query`,
/// up to its time stamp: numbered title, search link, fixed text and source.
pub open spec fn is_news_entry(r: SearchResult, query: Seq<char>, index: nat) -> bool {
    &&& r.title@ == "News placeholder "@ + decimal(index + 1) + " for "@ + query
    &&& r.url@ == news_url(query)
    &&& r.description@ == "Implement provider-backed news scraping/API for production use."@
    &&& r.source matches Some(s) && s@ == "bing-news-fallback"@
}

/// Entry `index` of the news answer for `query`, stamped with `now`.
pub fn news_entry(query: &str, index: usize, now: Timestamp) -> (res: SearchResult)
    requires
        index < usize::MAX,
    ensures
        is_news_entry(res, query@, index as nat),
        res.timestamp == Some(now),
{
    let mut title = String::from_str("News placeholder ");
    push_decimal(&mut title, index + 1);
    title.append(" for ");
    title.append(query);
    let mut url = String::from_str("https://www.bing.com/news/search?q=");
    let enc = url_encode(query);
    url.append(enc.as_str());
    SearchResult {
        title,
        url,
        description: String::from_str(
            "Implement provider-backed news scraping/API for production use.",
        ),
        source: Some(String::from_str("bing-news-fallback")),
        timestamp: Some(now),
    }
}

/// A time stamp that the system clock can give: not before the Unix epoch,
/// with the nanoseconds below one second.
pub open spec fn is_clock_time(t: Option<Timestamp>) -> bool {
    t matches Some(ts) && ts.unix_seconds >= 0 && ts.subsec_nanos < 1_000_000_000
}

/// The news answer for `query`: between one and ten entries, each stamped
/// with the time at which it was made.
pub fn search_news(query: &str, num_results: usize) -> (res: Vec<SearchResult>)
    ensures
        res.len() == news_count(num_results as nat),
        forall|i: int|
            0 <= i < res.len() ==> is_news_entry(#[trigger] res[i], query@, i as nat)
                && is_clock_time(res[i].timestamp),
{
    let count = if num_results < 1 {
        1
    } else if num_results > 10 {
        10
    } else {
        num_results
    };
    let mut out: Vec<SearchResult> = Vec::new();
    for i in 0..count
        invariant
            count <= 10,
            out.len() == i,
            forall|j: int|
                0 <= j < i ==> is_news_entry(#[trigger] out[j], query@, j as nat)
                    && is_clock_time(out[j].timestamp),
    {
        let entry = news_entry(query, i, now_utc());
        out.push(entry);
    }
    out
}

} // verus!
