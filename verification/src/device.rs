//! Devices and their variables in rendered form, and the plain text
//! exposition of them.
pub mod variables;
pub mod schema;
pub mod loader;
