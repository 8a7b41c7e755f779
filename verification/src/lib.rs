//! A paginated-cache library for browsing a remote forum from a terminal.
//!
//! The heart of the crate is a generic page cache ([`cache::CachedPage`])
//! that tracks a page cursor, a lazily discovered upper page bound, and a
//! map from page numbers to fetch results. A single worker
//! ([`fetcher::Fetcher`]) owns one such cache per resource and turns
//! request messages into response messages; all network and HTML work is
//! performed by the caller between the worker's steps, so the dispatch
//! state machine itself is fully verified.

pub mod board;
pub mod cache;
pub mod channel;
pub mod fetcher;
pub mod post;
pub mod query;
pub mod search;
pub mod state;
pub mod user;
