//! Search, news and page-content tools.

pub mod web_contents;
pub mod web_news;
pub mod web_search;
