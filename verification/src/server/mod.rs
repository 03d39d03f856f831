//! The HTTP-facing logic: authentication, the answer model and its builders.

pub mod auth;
pub mod cache;
pub mod handlers;
pub mod jwt;
pub mod keys;
pub mod models;
