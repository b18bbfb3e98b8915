//! Core of a host-local monitoring agent: threshold sampling, the shared
//! metrics snapshot, the enrichment availability cache, events and their
//! stored form, the control-plane answers, and the client's text helpers.

pub mod analyzer;
pub mod availability;
pub mod client;
pub mod collector;
pub mod config;
pub mod control;
pub mod event;
pub mod json;
pub mod metrics;
pub mod processes;
pub mod prompt;
pub mod sampler;
pub mod store;
pub mod text;
pub mod timestamp;
