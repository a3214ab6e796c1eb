//! Scrape coordination for an exporter of commit activity: the records of a
//! harvest, the metric observations derived from them, the builder that
//! assembles a harvest from upstream answers, and the cache that decides when
//! a new harvest is due.

pub mod builder;
pub mod cache;
pub mod cursor;
pub mod data;
pub mod error;
pub mod headers;
pub mod metrics;
