//! Core of a small user-management backend: identity tokens carrying subject,
//! role and expiry; the authorization policy deciding who may mutate which
//! user record; and the request-level validation and error taxonomy around
//! them. Storage and HTTP transport are collaborators kept outside this crate.

pub mod auth;
pub mod config;
pub mod error;
pub mod text;
pub mod user;
