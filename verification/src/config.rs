//! The settings of the exporter.
pub mod endpoint;
pub mod schema;
