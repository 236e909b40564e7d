//! Per-request components.

pub mod auth;
