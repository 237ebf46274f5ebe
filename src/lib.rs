//! A client library for an issue tracker's REST API: request construction,
//! cursor pagination, error classification and configuration resolution.
pub mod text;
pub mod link;
pub mod error;
pub mod model;
pub mod config;
pub mod urls;
pub mod client;
pub mod commands;
pub mod output;
