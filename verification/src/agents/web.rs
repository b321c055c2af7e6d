//! The web agent: summarizes a page when the request is a URL, searches otherwise.

use vstd::prelude::*;
use crate::config::{text_or, AppConfig};
use crate::llm::{
    client_from_settings, fallback_summary, fallback_summary_of, request_body_of, LlmClient, LlmEnv,
    LlmError,
};
use crate::models::SearchResult;

verus! {

/// Whether `url::Url::parse` accepts `s` as an absolute URL.
pub uninterp spec fn parses_as_url(s: Seq<char>) -> bool;

/// `url::Url::parse(s).is_ok()`. The WHATWG URL parser takes pages to
/// describe, so its verdict is named. Stated besides: an absolute URL needs a
/// scheme ended by `:`, so text without `:` is never accepted.
#[verifier::external_body]
fn url_parses(s: &str) -> (res: bool)
    ensures
        res == parses_as_url(s@),
        !s@.contains(':') ==> !res,
{
    url::Url::parse(s).is_ok()
}

/// What the web agent does with a request.
#[derive(Clone, Copy, Debug, PartialEq, Eq, Structural)]
pub enum WebRoute {
    /// Fetch the page and summarize it.
    Summarize,
    /// Run a web search.
    Search,
}

/// The route for a request, given whether it parses as a URL.
pub fn route_for(is_url: bool) -> (res: WebRoute)
    ensures
        res == (if is_url {
            WebRoute::Summarize
        } else {
            WebRoute::Search
        }),
{
    if is_url {
        WebRoute::Summarize
    } else {
        WebRoute::Search
    }
}

/// What the program does next for a web request.
pub enum WebAction {
    /// Search the web for `query`.
    Search { query: String, num_results: usize },
    /// Fetch the page at `url`.
    Fetch { url: String },
    /// Post `body` to the model's `endpoint` with this `Authorization` header.
    AskModel { endpoint: String, authorization: String, body: String },
    /// The request is answered.
    Answer(Vec<SearchResult>),
}

/// Answers web requests.
pub struct WebAgent {
    pub num_results: usize,
    pub summary_length: usize,
    pub llm: Option<LlmClient>,
}

/// The prompt that asks the model to summarize a page whose text is `content`.
pub open spec fn summary_prompt_of(content: Seq<char>) -> Seq<char> {
    "Summarize this page into an SEO headline + concise body:\n"@ + content
}

/// Token budget for a page summary.
pub open spec fn summary_max_tokens() -> nat {
    1024
}

/// The answer to a summary request for `url`.
pub open spec fn is_summary_answer(
    res: Seq<SearchResult>,
    url: Seq<char>,
    description: Seq<char>,
) -> bool {
    &&& res.len() == 1
    &&& res[0].title@ == "Summary of "@ + url
    &&& res[0].url@ == url
    &&& res[0].description@ == description
    &&& res[0].source is None
    &&& res[0].timestamp is None
}

impl WebAgent {
    /// An agent asking for `num_results` search results, with summary length
    /// `summary_length`, using the model that the stored settings `cfg` and
    /// the environment `env` configure (stored values first).
    pub fn new(num_results: usize, summary_length: usize, cfg: &AppConfig, env: &LlmEnv) -> (res:
        WebAgent)
        ensures
            res.num_results == num_results,
            res.summary_length == summary_length,
            client_from_settings(*cfg, *env, res.llm),
    {
        WebAgent { num_results, summary_length, llm: LlmClient::from_settings(cfg, env) }
    }

    /// The first step of answering `req`: a request that parses as a URL is
    /// a page to fetch and summarize, never a search; anything else is
    /// searched for with this agent's result count.
    pub fn process_request(&self, req: &str) -> (res: WebAction)
        ensures
            parses_as_url(req@) ==> (res matches WebAction::Fetch { url } && url@ == req@),
            !parses_as_url(req@) ==> (res matches WebAction::Search { query, num_results }
                && query@ == req@ && num_results == self.num_results),
    {
        match self.route(req) {
            WebRoute::Summarize => WebAction::Fetch { url: String::from_str(req) },
            WebRoute::Search => WebAction::Search {
                query: String::from_str(req),
                num_results: self.num_results,
            },
        }
    }

    /// The step after fetching the page at `url` (`fetched` is `None` when
    /// the fetch failed): the page text, empty after a failed fetch, and what
    /// to do next: ask the model when one is configured, otherwise answer
    /// with the fallback summary.
    pub fn on_page(&self, url: &str, fetched: Option<String>) -> (res: (String, WebAction))
        requires
            self.llm is Some || self.summary_length * 5 <= usize::MAX,
        ensures
            res.0@ == text_or(fetched, seq![]),
            match self.llm {
                Some(c) => res.1 matches WebAction::AskModel { endpoint, authorization, body }
                    && endpoint@ == c.base_url@ && authorization@ == "Bearer "@ + c.api_key@
                    && body@ == request_body_of(
                    c.model@,
                    summary_prompt_of(res.0@),
                    summary_max_tokens(),
                ),
                None => res.1 matches WebAction::Answer(v) && is_summary_answer(
                    v@,
                    url@,
                    fallback_summary_of(res.0@, (self.summary_length * 5) as nat),
                ),
            },
    {
        let content = match fetched {
            Some(c) => c,
            None => String::new(),
        };
        match &self.llm {
            Some(c) => {
                let body = Self::summary_request_body(c, content.as_str());
                let action = WebAction::AskModel {
                    endpoint: c.base_url.clone(),
                    authorization: c.authorization(),
                    body,
                };
                (content, action)
            },
            None => {
                let answer = self.summary_answer(url, content.as_str(), None);
                (content, WebAction::Answer(answer))
            },
        }
    }

    /// The last step: the answer for the page at `url` with text `content`,
    /// once the model has replied.
    pub fn on_reply(&self, url: &str, content: &str, reply: Result<String, LlmError>) -> (res: Vec<
        SearchResult,
    >)
        requires
            reply is Ok || self.summary_length * 5 <= usize::MAX,
        ensures
            is_summary_answer(
                res@,
                url@,
                match reply {
                    Ok(s) => s@,
                    Err(_) => fallback_summary_of(content@, (self.summary_length * 5) as nat),
                },
            ),
    {
        self.summary_answer(url, content, Some(reply))
    }

    /// Whether the request `req` is a page to summarize or a query to search.
    pub fn route(&self, req: &str) -> (res: WebRoute)
        ensures
            (res == WebRoute::Summarize) == parses_as_url(req@),
            !req@.contains(':') ==> res == WebRoute::Search,
    {
        route_for(url_parses(req))
    }

    /// The prompt that asks the model to summarize the page text `content`.
    pub fn summary_prompt(content: &str) -> (res: String)
        ensures
            res@ == summary_prompt_of(content@),
    {
        let mut out = String::from_str("Summarize this page into an SEO headline + concise body:\n");
        out.append(content);
        out
    }

    /// The request body asking `llm` to summarize the page text `content`.
    pub fn summary_request_body(llm: &LlmClient, content: &str) -> (res: String)
        ensures
            res@ == request_body_of(llm.model@, summary_prompt_of(content@), summary_max_tokens()),
    {
        let prompt = Self::summary_prompt(content);
        llm.request_body(prompt.as_str(), 1024)
    }

    /// The answer for the page at `url` with text `content`, given the
    /// model's reply (`None` when no model is configured): the model's
    /// summary when it gave one, otherwise the first `5 * summary_length`
    /// characters of the page's words.
    pub fn summary_answer(
        &self,
        url: &str,
        content: &str,
        reply: Option<Result<String, LlmError>>,
    ) -> (res: Vec<SearchResult>)
        requires
            (reply matches Some(Ok(_))) || self.summary_length * 5 <= usize::MAX,
        ensures
            is_summary_answer(
                res@,
                url@,
                match reply {
                    Some(Ok(s)) => s@,
                    _ => fallback_summary_of(content@, (self.summary_length * 5) as nat),
                },
            ),
    {
        let description = match reply {
            Some(Ok(s)) => s,
            _ => fallback_summary(content, self.summary_length * 5),
        };
        let mut title = String::from_str("Summary of ");
        title.append(url);
        let mut out = Vec::new();
        out.push(
            SearchResult {
                title,
                url: String::from_str(url),
                description,
                source: None,
                timestamp: None,
            },
        );
        out
    }
}

} // verus!
