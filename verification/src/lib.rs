//! Daily digest of cryptocurrency movers.
//!
//! The crate holds the decisions of a small aggregation service: ranking a
//! market snapshot, choosing the assets to report on, wording the provider
//! requests, reading the provider replies, assembling the day's digest and
//! deciding what the single read endpoint answers. Every function carries a
//! contract, and every contract is proved but those of four small functions
//! that are taken on trust: the two in [`json`] that call `serde_json`, and
//! the two in [`cache`] that read the system clock and call `chrono`. Network, disk and timers
//! belong to the program built around the crate.
//!
//! Percent changes are held in fixed point (see [`percent`]), so that ranking
//! and rendering are exact.

pub mod builder;
pub mod cache;
pub mod config;
pub mod digest;
pub mod endpoint;
pub mod http;
pub mod json;
pub mod market;
pub mod news;
pub mod percent;
pub mod quote;
pub mod ranking;
pub mod summary;
pub mod text;
pub mod url;
