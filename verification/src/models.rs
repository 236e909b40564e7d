//! Persistent data models.

pub mod user;

pub use user::User;
