//! Enumerated domain values: account status and deployment environment.

pub mod account_status;
pub mod environment;

pub use account_status::AccountStatus;
pub use account_status::Gender;
pub use account_status::SexualPreference;
pub use environment::Environment;
