//! What a management endpoint reports.
pub mod schema;
