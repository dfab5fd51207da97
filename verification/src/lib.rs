//! A verified client library for a user-activity feed: it classifies feed
//! events, renders each one as a single summary line, and maps the two
//! HTTP exchanges (primary fetch, best-effort commit-count enrichment)
//! onto a small error taxonomy.

pub mod event;
pub mod fetch;
pub mod render;
pub mod text;
pub mod time;
