//! Verified core of an RSS/Atom-to-social-network syndication bot.
//!
//! The library holds the logic that decides what gets posted: the
//! deduplication store with its bounded retention, the canonical link
//! selection, the watermark-based entry filter, the page metadata
//! fallback chain, the post assembly, and the per-cycle scheduling
//! decisions. Network and database I/O live outside the library and
//! hand plain values in.

pub mod dedup;
pub mod errors;
pub mod feed;
pub mod links;
pub mod metadata;
pub mod post;
pub mod scheduler;
pub mod web;
