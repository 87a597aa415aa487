//! User records and the request-level rules around reading and mutating them.

pub mod models;
pub mod service;
