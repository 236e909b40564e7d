//! The deployment environment a process runs in.

use vstd::prelude::*;

use crate::enums::account_status::EnumParseError;
use crate::strutil::str_eq;
use crate::validation::base::EnumParse;

verus! {

/// Where the service is deployed; selects logging verbosity among other
/// things.
#[derive(Debug, Clone, Copy, PartialEq, Eq, Structural)]
pub enum Environment {
    Development,
    Production,
    Test,
}

impl Environment {
    /// The lowercase textual form of this environment.
    pub open spec fn text(self) -> Seq<char> {
        match self {
            Environment::Development => "development"@,
            Environment::Production => "production"@,
            Environment::Test => "test"@,
        }
    }

    /// Which environment, if any, a textual value names.
    pub open spec fn parse_spec(s: Seq<char>) -> Option<Environment> {
        if s == "development"@ {
            Some(Environment::Development)
        } else if s == "production"@ {
            Some(Environment::Production)
        } else if s == "test"@ {
            Some(Environment::Test)
        } else {
            None
        }
    }

    pub fn as_str(self) -> (r: &'static str)
        ensures
            r@ == self.text(),
    {
        match self {
            Environment::Development => "development",
            Environment::Production => "production",
            Environment::Test => "test",
        }
    }

    pub fn parse_text(s: &str) -> (r: Option<Environment>)
        ensures
            r == Self::parse_spec(s@),
    {
        if str_eq(s, "development") {
            Some(Environment::Development)
        } else if str_eq(s, "production") {
            Some(Environment::Production)
        } else if str_eq(s, "test") {
            Some(Environment::Test)
        } else {
            None
        }
    }

    /// Every environment, in declaration order.
    pub fn all_values() -> (r: Vec<Environment>)
        ensures
            r@ =~= seq![
                Environment::Development,
                Environment::Production,
                Environment::Test,
            ],
    {
        let mut values: Vec<Environment> = Vec::new();
        values.push(Environment::Development);
        values.push(Environment::Production);
        values.push(Environment::Test);
        values
    }
}

impl EnumParse for Environment {
    open spec fn text_variant(s: Seq<char>) -> Option<Environment> {
        Environment::parse_spec(s)
    }

    fn parse_value(s: &str) -> (r: Option<Environment>) {
        Environment::parse_text(s)
    }
}

impl core::str::FromStr for Environment {
    type Err = EnumParseError;

    fn from_str(s: &str) -> Result<Self, Self::Err> {
        match Environment::parse_text(s) {
            Some(v) => Ok(v),
            None => Err(EnumParseError {}),
        }
    }
}

} // verus!
