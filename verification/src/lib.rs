//! Verified core of the JavaScript bindings for an OCI distribution client.

pub mod text;
pub mod json;
pub mod errors;
pub mod auth;
pub mod manifest;
pub mod config;
pub mod reference;
pub mod client;
pub mod constants;
