//! Feed ingestion: leasing sources for fetching, normalising RSS and Atom
//! payloads into entries, filtering out entries already stored, and keeping
//! a bounded history of fetch failures per source.

pub mod api;
pub mod article;
pub mod dedup;
pub mod error_log;
pub mod fetch;
mod ids;
pub mod rssatom;
pub mod sources;
pub mod timestamp;
