//! The agents that answer search requests.

pub mod news;
pub mod web;
