//! Identity and authorization: token claims, the token service, and the
//! policy deciding which caller may mutate which user record.

pub mod models;
pub mod policy;
pub mod service;
