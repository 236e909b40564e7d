//! General-purpose helpers.

pub mod validation;
