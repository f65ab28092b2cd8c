//! Metrics collection engine for rack power and cooling management endpoints.
//!
//! The crate holds the decision logic of an exporter that polls management
//! endpoints, maps the vendor variables they report onto gauge families and
//! serves them in the text exposition format. It performs no request and
//! opens no socket: the worker of a target is a state machine that is told
//! what happened and answers with what is to be done next.
//!
//! Every function states what it computes in its contract, and the contracts
//! are machine checked. What is taken on trust is marked: the gauge families
//! and their registry are those of the `prometheus` crate, queries are
//! decoded by the `url` crate, and text beyond ASCII is put in lowercase by
//! the standard library.
//!
//! - [`config`]: the settings.
//! - [`target`]: what an endpoint reports.
//! - [`metrics`]: metric identities, the catalog of vendor variables, label
//!   values, observations and the registry.
//! - [`client`]: the worker of one target and its metric update pass.
//! - [`server`]: the scrape endpoint and the plain text exposition.
//! - [`device`]: devices and their variables in rendered form.
//! - [`text`]: string helpers.
pub mod client;
pub mod config;
pub mod device;
pub mod metrics;
pub mod server;
pub mod target;
pub mod text;
