//! Verified core of a desktop log analyzer: query parsing, search filters,
//! archive path safety, extraction bookkeeping, progress reporting and
//! task-pool accounting.
pub mod text;
pub mod query;
pub mod filters;
pub mod errors;
pub mod progress;
pub mod traversal;
pub mod pool;
pub mod resources;
pub mod pathname;
pub mod handlers;
pub mod paths;
pub mod security;
pub mod api;
pub mod benchmark;
pub mod search;
pub mod pipeline;
pub mod keywords;
