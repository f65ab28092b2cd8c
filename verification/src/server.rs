//! The scrape endpoint.
pub mod scrape;
pub mod probe;
