//! Input validation: a small schema system for strings, emails, URLs and
//! enumerated values.

pub mod base;
pub mod email;
pub mod enum_schema;
pub mod enums;
pub mod string;
pub mod url;

pub use base::Validator;

pub use email::email;
pub use enums::enums;
pub use string::string;
pub use url::url;
