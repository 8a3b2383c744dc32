//! A small todo service: request routing, JSON payload decoding, field
//! validation, an in-memory todos store with cursor pagination, and a uniform
//! mapping from errors to HTTP statuses.

mod clock;
pub mod errors;
pub mod http;
pub mod json;
pub mod laws;
pub mod repo;
pub mod server;
pub mod text;
pub mod todos_controller;
pub mod validators;
