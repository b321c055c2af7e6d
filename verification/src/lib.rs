//! Search and page-summary logic: request routing, search-result shaping,
//! settings handling, and the deterministic fallback summarizer.

pub mod config;
pub mod encode;
pub mod llm;
pub mod models;
pub mod text;
pub mod tools;
pub mod agents;
pub mod api;
