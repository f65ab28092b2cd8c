//! Metric identities, the vendor variable catalog and label handling.
pub mod key;
pub mod catalog;
pub mod label;
pub mod observation;
pub mod registry;
