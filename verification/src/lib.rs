//! Authentication and session-authorization core of a multi-user web
//! service: credential registration, password verification, stateless
//! bearer-token issuance, and per-request authorization enforcement.

pub mod auth;
pub mod clock;
pub mod config;
pub mod enums;
pub mod ids;
pub mod middleware;
pub mod models;
pub mod password;
pub mod services;
pub mod store;
pub mod strutil;
pub mod utils;
pub mod validation;
