use groqqle::agents::news::NewsAgent;
use groqqle::agents::web::{route_for, WebAction, WebAgent, WebRoute};
use groqqle::api::{resolve_search, AppState};
use groqqle::config::AppConfig;
use groqqle::llm::{fallback_summary, LlmEnv, LlmError};
use groqqle::models::{
    default_num_results, default_search_type, default_summary_length, SearchKind, SearchRequest,
};
use groqqle::tools::web_contents::page_text;
use groqqle::tools::web_news::search_news;
use groqqle::tools::web_search::{
    plan_search, result_from_item, results_from_items, results_from_reply, search_link_results,
    BraveItem, SearchError, WebSearchPlan,
};

fn no_llm() -> LlmEnv {
    LlmEnv { glm_api_key: None, glm_model: None, glm_base_url: None, groq_api_key: None, groq_model: None }
}

#[test]
fn request_defaults() {
    assert_eq!(default_num_results(), 10);
    assert_eq!(default_summary_length(), 300);
    assert_eq!(default_search_type(), "web");
}

#[test]
fn news_count_is_between_one_and_ten() {
    assert_eq!(search_news("q", 0).len(), 1);
    assert_eq!(search_news("q", 1).len(), 1);
    assert_eq!(search_news("q", 5).len(), 5);
    assert_eq!(search_news("q", 10).len(), 10);
    assert_eq!(search_news("q", 50).len(), 10);
    assert_eq!(search_news("q", usize::MAX).len(), 10);
}

#[test]
fn news_entries_are_numbered_links() {
    let res = search_news("AI chips", 3);
    for (i, r) in res.iter().enumerate() {
        assert_eq!(r.title, format!("News placeholder {} for AI chips", i + 1));
        assert_eq!(r.url, "https://www.bing.com/news/search?q=AI%20chips");
        assert_eq!(r.description, "Implement provider-backed news scraping/API for production use.");
        assert_eq!(r.source.as_deref(), Some("bing-news-fallback"));
        assert!(r.timestamp.is_some());
    }
    assert_eq!(search_news("x", 10)[9].title, "News placeholder 10 for x");
}

#[test]
fn news_link_percent_encodes_utf8() {
    let res = search_news("a b&c/é~_.-", 1);
    assert_eq!(res[0].url, "https://www.bing.com/news/search?q=a%20b%26c%2F%C3%A9~_.-");
}

#[test]
fn news_agent_answers_with_news() {
    let agent = NewsAgent::new(2);
    assert_eq!(agent.num_results, 2);
    let res = agent.process_request("rust");
    assert_eq!(res.len(), 2);
    assert_eq!(res[1].title, "News placeholder 2 for rust");
}

#[test]
fn search_link_answer() {
    let res = search_link_results("rust web frameworks");
    assert_eq!(res.len(), 1);
    assert_eq!(res[0].title, "Search rust web frameworks");
    assert_eq!(res[0].url, "https://duckduckgo.com/?q=rust%20web%20frameworks");
    assert_eq!(res[0].description, "No BRAVE_API_KEY set; returning direct search link fallback.");
    assert_eq!(res[0].source.as_deref(), Some("fallback"));
    assert!(res[0].timestamp.is_none());
}

#[test]
fn encoded_links_use_only_url_safe_characters() {
    let res = search_link_results("?&=#/ \u{0}\u{7f}ü€😀");
    let q = res[0].url.strip_prefix("https://duckduckgo.com/?q=").unwrap();
    assert!(q.chars().all(|c| c.is_ascii_alphanumeric() || "-._~%".contains(c)));
    assert_eq!(q, "%3F%26%3D%23%2F%20%00%7F%C3%BC%E2%82%AC%F0%9F%98%80");
}

#[test]
fn brave_items_get_defaults() {
    let r = result_from_item(BraveItem { title: None, url: None, description: None });
    assert_eq!(r.title, "Untitled");
    assert_eq!(r.url, "");
    assert_eq!(r.description, "");
    assert!(r.source.is_none() && r.timestamp.is_none());
    let items = vec![
        BraveItem { title: Some("A".into()), url: Some("https://a".into()), description: Some("da".into()) },
        BraveItem { title: Some("B".into()), url: None, description: None },
    ];
    let res = results_from_items(items);
    assert_eq!(res.len(), 2);
    assert_eq!((res[0].title.as_str(), res[0].url.as_str(), res[0].description.as_str()), ("A", "https://a", "da"));
    assert_eq!((res[1].title.as_str(), res[1].url.as_str()), ("B", ""));
    assert!(results_from_items(Vec::new()).is_empty());
}

#[test]
fn plan_search_prefers_stored_key() {
    let mut cfg = AppConfig::default();
    cfg.brave_api_key = Some("stored".to_string());
    match plan_search(&cfg, Some("env".to_string()), "q", 7) {
        WebSearchPlan::Brave(r) => {
            assert_eq!(r.token, "stored");
            assert_eq!(r.endpoint, "https://api.search.brave.com/res/v1/web/search");
            assert_eq!(
                r.params,
                vec![("q".to_string(), "q".to_string()), ("count".to_string(), "7".to_string())]
            );
            assert_eq!(r.token_header, "X-Subscription-Token");
        }
        WebSearchPlan::Answer(_) => panic!("expected a Brave search"),
    }
}

#[test]
fn plan_search_uses_environment_key() {
    match plan_search(&AppConfig::default(), Some("env".to_string()), "q", 12) {
        WebSearchPlan::Brave(r) => {
            assert_eq!(r.token, "env");
            assert_eq!(r.params[1].1, "12");
        }
        WebSearchPlan::Answer(_) => panic!("expected a Brave search"),
    }
}

#[test]
fn plan_search_without_key_answers_with_link() {
    match plan_search(&AppConfig::default(), None, "latest rust", 5) {
        WebSearchPlan::Answer(v) => {
            assert_eq!(v.len(), 1);
            assert_eq!(v[0].url, "https://duckduckgo.com/?q=latest%20rust");
        }
        WebSearchPlan::Brave(_) => panic!("expected the link answer"),
    }
}

#[test]
fn page_text_joins_body_text_nodes() {
    let html = "<html><head><title>T</title></head><body><h1>Hello</h1><p>brave <b>new</b> world</p></body></html>";
    assert_eq!(page_text(html), "Hello brave  new  world");
    assert_eq!(page_text("<p>x</p>"), "x");
    assert_eq!(page_text(""), "");
}

#[test]
fn urls_are_summarized_and_queries_searched() {
    let agent = WebAgent::new(5, 300, &AppConfig::default(), &no_llm());
    assert!(agent.llm.is_none());
    assert_eq!(agent.route("https://www.rust-lang.org/"), WebRoute::Summarize);
    assert_eq!(agent.route("mailto:someone@example.com"), WebRoute::Summarize);
    assert_eq!(agent.route("latest rust async patterns"), WebRoute::Search);
    assert_eq!(agent.route("www.rust-lang.org"), WebRoute::Search);
    assert_eq!(route_for(true), WebRoute::Summarize);
    assert_eq!(route_for(false), WebRoute::Search);
}

#[test]
fn summary_prompt_and_body() {
    assert_eq!(
        WebAgent::summary_prompt("page"),
        "Summarize this page into an SEO headline + concise body:\npage"
    );
    let mut e = no_llm();
    e.groq_api_key = Some("k".to_string());
    let agent = WebAgent::new(5, 300, &AppConfig::default(), &e);
    let llm = agent.llm.as_ref().unwrap();
    let body = WebAgent::summary_request_body(llm, "page");
    let v: serde_json::Value = serde_json::from_str(&body).unwrap();
    assert_eq!(v["max_tokens"], 1024);
    assert_eq!(v["messages"][0]["content"], "Summarize this page into an SEO headline + concise body:\npage");
}

#[test]
fn summary_answer_uses_model_reply_or_fallback() {
    let agent = WebAgent::new(5, 2, &AppConfig::default(), &no_llm());
    let content = "  lots   of   page    text here ";
    let r = agent.summary_answer("https://x.org", content, Some(Ok("model says".to_string())));
    assert_eq!(r.len(), 1);
    assert_eq!(r[0].title, "Summary of https://x.org");
    assert_eq!(r[0].url, "https://x.org");
    assert_eq!(r[0].description, "model says");
    assert!(r[0].source.is_none() && r[0].timestamp.is_none());
    let r = agent.summary_answer("https://x.org", content, None);
    assert_eq!(r[0].description, "lots of pa");
    assert_eq!(r[0].description, fallback_summary(content, 10));
    let r = agent.summary_answer("https://x.org", content, Some(Err(LlmError::Request)));
    assert_eq!(r[0].description, "lots of pa");
}

fn request(num: usize, len: usize, kind: &str) -> SearchRequest {
    SearchRequest { query: "q".to_string(), num_results: num, summary_length: len, search_type: kind.to_string() }
}

#[test]
fn resolve_search_applies_defaults_and_type() {
    let state = AppState { default_num_results: 10, default_summary_length: 300 };
    let r = resolve_search(&state, &request(0, 0, "web"));
    assert_eq!((r.kind, r.num_results, r.summary_length), (SearchKind::Web, 10, 300));
    let r = resolve_search(&state, &request(3, 50, "NeWs"));
    assert_eq!((r.kind, r.num_results, r.summary_length), (SearchKind::News, 3, 50));
    assert_eq!(resolve_search(&state, &request(1, 1, "news ")).kind, SearchKind::Web);
    assert_eq!(resolve_search(&state, &request(1, 1, "images")).kind, SearchKind::Web);
    assert_eq!(resolve_search(&state, &request(1, 1, "")).kind, SearchKind::Web);
}

#[test]
fn brave_reply_body_becomes_results() {
    let body = br#"{"web":{"results":[
        {"title":"Rust","url":"https://www.rust-lang.org/","description":"A language"},
        {"url":"https://b.example","description":7},
        {}
    ]},"query":{"original":"rust"}}"#;
    let res = results_from_reply(body).unwrap();
    assert_eq!(res.len(), 3);
    assert_eq!(res[0].title, "Rust");
    assert_eq!(res[0].url, "https://www.rust-lang.org/");
    assert_eq!(res[0].description, "A language");
    assert_eq!(res[1].title, "Untitled");
    assert_eq!(res[1].url, "https://b.example");
    assert_eq!(res[1].description, "");
    assert_eq!((res[2].title.as_str(), res[2].url.as_str()), ("Untitled", ""));
}

#[test]
fn brave_reply_without_results_is_empty() {
    assert!(results_from_reply(br#"{"type":"search"}"#).unwrap().is_empty());
    assert!(results_from_reply(br#"{"web":{"results":"none"}}"#).unwrap().is_empty());
}

#[test]
fn brave_reply_that_is_not_json() {
    assert!(matches!(results_from_reply(b"not json"), Err(SearchError::MalformedReply)));
}

#[test]
fn brave_request_carries_query_count_and_key() {
    let r = groqqle::tools::web_search::brave_request("rust & go", "k".to_string(), 0);
    assert_eq!(r.params[0], ("q".to_string(), "rust & go".to_string()));
    assert_eq!(r.params[1], ("count".to_string(), "0".to_string()));
    assert_eq!(r.token, "k");
}

#[test]
fn url_requests_are_fetched_and_queries_searched() {
    let agent = WebAgent::new(7, 300, &AppConfig::default(), &no_llm());
    match agent.process_request("https://www.rust-lang.org/") {
        WebAction::Fetch { url } => assert_eq!(url, "https://www.rust-lang.org/"),
        _ => panic!("a URL is fetched"),
    }
    match agent.process_request("rust web frameworks") {
        WebAction::Search { query, num_results } => {
            assert_eq!(query, "rust web frameworks");
            assert_eq!(num_results, 7);
        }
        _ => panic!("a query is searched"),
    }
}

#[test]
fn page_without_model_is_answered_with_fallback() {
    let agent = WebAgent::new(7, 1, &AppConfig::default(), &no_llm());
    let (content, next) = agent.on_page("https://x.org", Some("  a   page \n body ".to_string()));
    assert_eq!(content, "  a   page \n body ");
    match next {
        WebAction::Answer(v) => {
            assert_eq!(v.len(), 1);
            assert_eq!(v[0].title, "Summary of https://x.org");
            assert_eq!(v[0].description, "a pag");
        }
        _ => panic!("no model: answered at once"),
    }
}

#[test]
fn failed_fetch_gives_empty_text() {
    let agent = WebAgent::new(7, 300, &AppConfig::default(), &no_llm());
    let (content, next) = agent.on_page("https://x.org", None);
    assert_eq!(content, "");
    match next {
        WebAction::Answer(v) => assert_eq!(v[0].description, ""),
        _ => panic!("no model: answered at once"),
    }
}

#[test]
fn page_with_model_asks_the_model() {
    let mut e = no_llm();
    e.glm_api_key = Some("key".to_string());
    let agent = WebAgent::new(7, 300, &AppConfig::default(), &e);
    let (content, next) = agent.on_page("https://x.org", Some("text".to_string()));
    assert_eq!(content, "text");
    match next {
        WebAction::AskModel { endpoint, authorization, body } => {
            assert_eq!(endpoint, "https://open.bigmodel.cn/api/paas/v4/chat/completions");
            assert_eq!(authorization, "Bearer key");
            let v: serde_json::Value = serde_json::from_str(&body).unwrap();
            assert_eq!(v["model"], "glm-5");
            assert_eq!(
                v["messages"][0]["content"],
                "Summarize this page into an SEO headline + concise body:\ntext"
            );
        }
        _ => panic!("a configured model is asked"),
    }
    let r = agent.on_reply("https://x.org", &content, Ok("Headline".to_string()));
    assert_eq!(r[0].description, "Headline");
    let r = agent.on_reply("https://x.org", "some  page", Err(LlmError::Request));
    assert_eq!(r[0].description, "some page");
}

#[test]
fn key_saved_in_settings_configures_the_model() {
    let mut cfg = AppConfig::default();
    cfg.glm_api_key = Some("k".to_string());
    let agent = WebAgent::new(5, 300, &cfg, &no_llm());
    let llm = agent.llm.as_ref().unwrap();
    assert_eq!(llm.provider, groqqle::llm::Provider::Glm);
    assert_eq!(llm.api_key, "k");
}
