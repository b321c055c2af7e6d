//! Web search: the Brave Search answer when a key is configured, a search link otherwise.

use vstd::prelude::*;
use crate::config::{get_setting, seq_or, setting_of, text_of, text_or, AppConfig};
use crate::encode::{url_encode, url_encoded};
use crate::models::SearchResult;
use crate::text::{decimal, decimal_string};

verus! {

/// The fields of one entry of a Brave Search reply; each is `None` when the
/// entry has no such string field.
pub struct BraveItem {
    pub title: Option<String>,
    pub url: Option<String>,
    pub description: Option<String>,
}

/// An entry of a Brave Search reply by its title, link and description.
pub type BraveEntry = (Option<Seq<char>>, Option<Seq<char>>, Option<Seq<char>>);

/// `item` by its characters.
pub open spec fn entry_of(item: BraveItem) -> BraveEntry {
    (text_of(item.title), text_of(item.url), text_of(item.description))
}

/// The entries of a Brave Search reply body: `None` when it is not JSON,
/// otherwise the items of `web.results` (none when there is no such array).
pub uninterp spec fn brave_entries_of(body: Seq<u8>) -> Option<Seq<BraveEntry>>;

/// `serde_json::from_slice::<serde_json::Value>` on a Brave Search reply
/// body, then the string fields `title`, `url` and `description` of each
/// element of `web.results` (`Value` indexing, `as_array`, `as_str`). What
/// the JSON parser accepts takes pages to state, so the result is named.
#[verifier::external_body]
fn brave_items(body: &[u8]) -> (res: Option<Vec<BraveItem>>)
    ensures
        match res {
            Some(v) => brave_entries_of(body@) == Some(v@.map_values(|i: BraveItem| entry_of(i))),
            None => brave_entries_of(body@) is None,
        },
{
    let data: serde_json::Value = serde_json::from_slice(body).ok()?;
    let mut out = Vec::new();
    for item in data["web"]["results"].as_array().map(|a| a.as_slice()).unwrap_or(&[]) {
        out.push(BraveItem {
            title: item["title"].as_str().map(String::from),
            url: item["url"].as_str().map(String::from),
            description: item["description"].as_str().map(String::from),
        });
    }
    Some(out)
}

/// Why a web search failed.
#[derive(Clone, Copy, Debug, PartialEq, Eq, Structural)]
pub enum SearchError {
    /// The Brave Search reply body was not JSON.
    MalformedReply,
}

/// The Brave Search key to use: the stored setting, else the `BRAVE_API_KEY`
/// environment variable (`env_key`).
pub fn brave_api_key(cfg: &AppConfig, env_key: Option<String>) -> (res: Option<String>)
    ensures
        text_of(res) == match setting_of(*cfg, "BRAVE_API_KEY"@) {
            Some(k) => Some(k),
            None => text_of(env_key),
        },
{
    let stored = get_setting(cfg, "BRAVE_API_KEY");
    match stored {
        Some(k) => Some(k),
        None => env_key,
    }
}

/// `r` is the search result made from the Brave entry `e`.
pub open spec fn is_result_of_entry(r: SearchResult, e: BraveEntry) -> bool {
    &&& r.title@ == seq_or(e.0, "Untitled"@)
    &&& r.url@ == seq_or(e.1, seq![])
    &&& r.description@ == seq_or(e.2, seq![])
    &&& r.source is None
    &&& r.timestamp is None
}

fn text_or_else(o: Option<String>, default: &str) -> (res: String)
    ensures
        res@ == text_or(o, default@),
{
    match o {
        Some(s) => s,
        None => String::from_str(default),
    }
}

fn text_or_empty(o: Option<String>) -> (res: String)
    ensures
        res@ == text_or(o, seq![]),
{
    match o {
        Some(s) => s,
        None => String::new(),
    }
}

/// The search result for one Brave entry: missing title "Untitled", missing
/// link or description empty.
pub fn result_from_item(item: BraveItem) -> (res: SearchResult)
    ensures
        is_result_of_entry(res, entry_of(item)),
{
    SearchResult {
        title: text_or_else(item.title, "Untitled"),
        url: text_or_empty(item.url),
        description: text_or_empty(item.description),
        source: None,
        timestamp: None,
    }
}

/// The search results for the entries of a Brave reply, in order.
pub fn results_from_items(items: Vec<BraveItem>) -> (res: Vec<SearchResult>)
    ensures
        res.len() == items.len(),
        forall|i: int| 0 <= i < res.len() ==> is_result_of_entry(#[trigger] res[i], entry_of(items[i])),
{
    let ghost orig = items@;
    let mut items = items;
    let mut rev: Vec<SearchResult> = Vec::new();
    let n = items.len();
    while items.len() > 0
        invariant
            orig.len() == n,
            items@ == orig.take(items.len() as int),
            rev.len() + items.len() == n,
            forall|j: int|
                0 <= j < rev.len() ==> is_result_of_entry(#[trigger] rev[j], entry_of(orig[n - 1 - j])),
        decreases items.len(),
    {
        let item = items.pop().unwrap();
        rev.push(result_from_item(item));
    }
    let mut out: Vec<SearchResult> = Vec::new();
    while rev.len() > 0
        invariant
            orig.len() == n,
            out.len() + rev.len() == n,
            forall|j: int|
                0 <= j < rev.len() ==> is_result_of_entry(#[trigger] rev[j], entry_of(orig[n - 1 - j])),
            forall|j: int| 0 <= j < out.len() ==> is_result_of_entry(#[trigger] out[j], entry_of(orig[j])),
        decreases rev.len(),
    {
        let r = rev.pop().unwrap();
        out.push(r);
    }
    out
}

/// The search results in the body of a Brave Search reply, in order.
pub fn results_from_reply(body: &[u8]) -> (res: Result<Vec<SearchResult>, SearchError>)
    ensures
        match brave_entries_of(body@) {
            Some(es) => res matches Ok(v) && v.len() == es.len() && forall|i: int|
                0 <= i < v.len() ==> is_result_of_entry(#[trigger] v[i], es[i]),
            None => res == Err::<Vec<SearchResult>, SearchError>(SearchError::MalformedReply),
        },
{
    match brave_items(body) {
        Some(items) => Ok(results_from_items(items)),
        None => Err(SearchError::MalformedReply),
    }
}

/// The answer when no Brave Search key is available: one link to a
/// DuckDuckGo search for `query`.
pub open spec fn is_search_link_answer(res: Seq<SearchResult>, query: Seq<char>) -> bool {
    &&& res.len() == 1
    &&& res[0].title@ == "Search "@ + query
    &&& res[0].url@ == "https://duckduckgo.com/?q="@ + url_encoded(query)
    &&& res[0].description@ == "No BRAVE_API_KEY set; returning direct search link fallback."@
    &&& res[0].source matches Some(s) && s@ == "fallback"@
    &&& res[0].timestamp is None
}

/// The search answer without a Brave Search key.
pub fn search_link_results(query: &str) -> (res: Vec<SearchResult>)
    ensures
        is_search_link_answer(res@, query@),
{
    let mut title = String::from_str("Search ");
    title.append(query);
    let mut url = String::from_str("https://duckduckgo.com/?q=");
    let enc = url_encode(query);
    url.append(enc.as_str());
    let r = SearchResult {
        title,
        url,
        description: String::from_str(
            "No BRAVE_API_KEY set; returning direct search link fallback.",
        ),
        source: Some(String::from_str("fallback")),
        timestamp: None,
    };
    let mut out = Vec::new();
    out.push(r);
    out
}

/// A Brave Search request: a GET of `endpoint` with the query pairs
/// `params`, authorized by the header `token_header: token`.
pub struct BraveRequest {
    pub endpoint: String,
    pub params: Vec<(String, String)>,
    pub token_header: String,
    pub token: String,
}

/// `r` is the Brave Search request for `query`, asking for `num_results`
/// results with the key `key`.
pub open spec fn is_brave_request(r: BraveRequest, query: Seq<char>, key: Seq<char>, num_results: nat) -> bool {
    &&& r.endpoint@ == "https://api.search.brave.com/res/v1/web/search"@
    &&& r.params@.len() == 2
    &&& r.params@[0].0@ == "q"@
    &&& r.params@[0].1@ == query
    &&& r.params@[1].0@ == "count"@
    &&& r.params@[1].1@ == decimal(num_results)
    &&& r.token_header@ == "X-Subscription-Token"@
    &&& r.token@ == key
}

/// The Brave Search request for `query` with the key `key`.
pub fn brave_request(query: &str, key: String, num_results: usize) -> (res: BraveRequest)
    ensures
        is_brave_request(res, query@, key@, num_results as nat),
{
    let mut params: Vec<(String, String)> = Vec::new();
    params.push((String::from_str("q"), String::from_str(query)));
    params.push((String::from_str("count"), decimal_string(num_results)));
    BraveRequest {
        endpoint: String::from_str("https://api.search.brave.com/res/v1/web/search"),
        params,
        token_header: String::from_str("X-Subscription-Token"),
        token: key,
    }
}

/// The next step of a web search.
pub enum WebSearchPlan {
    /// Send this request to Brave Search.
    Brave(BraveRequest),
    /// No key is available: this is the answer.
    Answer(Vec<SearchResult>),
}

/// Decides how to search for `query`: through Brave Search when a key is
/// stored or in the environment (`env_key`), with the link answer otherwise.
pub fn plan_search(cfg: &AppConfig, env_key: Option<String>, query: &str, num_results: usize) -> (res:
    WebSearchPlan)
    ensures
        match res {
            WebSearchPlan::Brave(r) => {
                &&& Some(r.token@) == match setting_of(*cfg, "BRAVE_API_KEY"@) {
                    Some(k) => Some(k),
                    None => text_of(env_key),
                }
                &&& is_brave_request(r, query@, r.token@, num_results as nat)
            },
            WebSearchPlan::Answer(v) => {
                &&& setting_of(*cfg, "BRAVE_API_KEY"@) is None
                &&& env_key is None
                &&& is_search_link_answer(v@, query@)
            },
        },
{
    match brave_api_key(cfg, env_key) {
        Some(key) => WebSearchPlan::Brave(brave_request(query, key, num_results)),
        None => WebSearchPlan::Answer(search_link_results(query)),
    }
}

} // verus!
