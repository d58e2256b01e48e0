//! Verified core of a client library for bug trackers: argument parsing,
//! value ranges, search-query encoding and request parameter handling.
pub mod text;
pub mod error;

pub use error::Error;
pub mod numbers;
pub mod traits;
pub mod objects;
pub mod time;
pub mod query;
pub mod web;
pub mod service;
pub mod args;
pub mod sets;
pub mod client;
pub mod paths;
pub mod output;
pub mod config;
