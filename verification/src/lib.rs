//! Polling and classification rules of a monitoring adapter that bridges a
//! GraphQL engine to a metrics backend.
//!
//! Every function here is a decision from plain values to plain values: what
//! to ask the engine, what a reply means, which metrics and diagnostics follow
//! from it, and when the polling loop stops. Performing the calls and sending
//! the metrics is left to the program around this library.

pub mod collectors;
pub mod config;
pub mod labels;
pub mod logprocessor;
pub mod sink;
pub mod text;
