//! Service components.

pub mod jwt;
