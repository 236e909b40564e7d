//! Account-related enumerations and their textual forms.

use vstd::prelude::*;

use crate::strutil::str_eq;
use crate::validation::base::EnumParse;

verus! {

/// Error returned when a textual value names no variant of an enumeration.
#[derive(Debug, Clone, Copy, PartialEq, Eq)]
pub struct EnumParseError {}

/// The lifecycle status of an account.  Only `Active` accounts are allowed
/// to authenticate or act; `Suspended` and `Banned` are locked out.
#[derive(Debug, Clone, Copy, PartialEq, Eq, Structural)]
pub enum AccountStatus {
    Active,
    Suspended,
    Banned,
}

impl AccountStatus {
    /// The lowercase textual form of this status.
    pub open spec fn text(self) -> Seq<char> {
        match self {
            AccountStatus::Active => "active"@,
            AccountStatus::Suspended => "suspended"@,
            AccountStatus::Banned => "banned"@,
        }
    }

    /// Which status, if any, a textual value names.
    pub open spec fn parse_spec(s: Seq<char>) -> Option<AccountStatus> {
        if s == "active"@ {
            Some(AccountStatus::Active)
        } else if s == "suspended"@ {
            Some(AccountStatus::Suspended)
        } else if s == "banned"@ {
            Some(AccountStatus::Banned)
        } else {
            None
        }
    }

    pub fn as_str(self) -> (r: &'static str)
        ensures
            r@ == self.text(),
    {
        match self {
            AccountStatus::Active => "active",
            AccountStatus::Suspended => "suspended",
            AccountStatus::Banned => "banned",
        }
    }

    pub fn parse_text(s: &str) -> (r: Option<AccountStatus>)
        ensures
            r == Self::parse_spec(s@),
    {
        if str_eq(s, "active") {
            Some(AccountStatus::Active)
        } else if str_eq(s, "suspended") {
            Some(AccountStatus::Suspended)
        } else if str_eq(s, "banned") {
            Some(AccountStatus::Banned)
        } else {
            None
        }
    }

    /// Every status, in declaration order.
    pub fn all_values() -> (r: Vec<AccountStatus>)
        ensures
            r@ =~= seq![
                AccountStatus::Active,
                AccountStatus::Suspended,
                AccountStatus::Banned,
            ],
    {
        let mut values: Vec<AccountStatus> = Vec::new();
        values.push(AccountStatus::Active);
        values.push(AccountStatus::Suspended);
        values.push(AccountStatus::Banned);
        values
    }
}

/// Parsing the textual form of a status yields that status back.
pub proof fn lemma_status_text_round_trip(v: AccountStatus)
    ensures
        AccountStatus::parse_spec(v.text()) == Some(v),
{
    reveal_strlit("active");
    reveal_strlit("suspended");
    reveal_strlit("banned");
    match v {
        AccountStatus::Active => {
        },
        AccountStatus::Suspended => {
            assert("suspended"@.len() != "active"@.len());
        },
        AccountStatus::Banned => {
            assert("banned"@ != "active"@) by {
                assert("banned"@[0] != "active"@[0]);
            }
            assert("banned"@.len() != "suspended"@.len());
        },
    }
}

impl EnumParse for AccountStatus {
    open spec fn text_variant(s: Seq<char>) -> Option<AccountStatus> {
        AccountStatus::parse_spec(s)
    }

    fn parse_value(s: &str) -> (r: Option<AccountStatus>) {
        AccountStatus::parse_text(s)
    }
}

impl core::str::FromStr for AccountStatus {
    type Err = EnumParseError;

    fn from_str(s: &str) -> Result<Self, Self::Err> {
        match AccountStatus::parse_text(s) {
            Some(v) => Ok(v),
            None => Err(EnumParseError {}),
        }
    }
}

/// A profile's stated gender.
#[derive(Debug, Clone, Copy, PartialEq, Eq, Structural)]
pub enum Gender {
    Male,
    Female,
    Other,
}

impl Gender {
    /// The lowercase textual form of this gender.
    pub open spec fn text(self) -> Seq<char> {
        match self {
            Gender::Male => "male"@,
            Gender::Female => "female"@,
            Gender::Other => "other"@,
        }
    }

    /// Which gender, if any, a textual value names.
    pub open spec fn parse_spec(s: Seq<char>) -> Option<Gender> {
        if s == "male"@ {
            Some(Gender::Male)
        } else if s == "female"@ {
            Some(Gender::Female)
        } else if s == "other"@ {
            Some(Gender::Other)
        } else {
            None
        }
    }

    pub fn as_str(self) -> (r: &'static str)
        ensures
            r@ == self.text(),
    {
        match self {
            Gender::Male => "male",
            Gender::Female => "female",
            Gender::Other => "other",
        }
    }

    pub fn parse_text(s: &str) -> (r: Option<Gender>)
        ensures
            r == Self::parse_spec(s@),
    {
        if str_eq(s, "male") {
            Some(Gender::Male)
        } else if str_eq(s, "female") {
            Some(Gender::Female)
        } else if str_eq(s, "other") {
            Some(Gender::Other)
        } else {
            None
        }
    }
}

impl EnumParse for Gender {
    open spec fn text_variant(s: Seq<char>) -> Option<Gender> {
        Gender::parse_spec(s)
    }

    fn parse_value(s: &str) -> (r: Option<Gender>) {
        Gender::parse_text(s)
    }
}

impl core::str::FromStr for Gender {
    type Err = EnumParseError;

    fn from_str(s: &str) -> Result<Self, Self::Err> {
        match Gender::parse_text(s) {
            Some(v) => Ok(v),
            None => Err(EnumParseError {}),
        }
    }
}

/// A profile's stated sexual preference.
#[derive(Debug, Clone, Copy, PartialEq, Eq, Structural)]
pub enum SexualPreference {
    Heterosexual,
    Homosexual,
    Bisexual,
}

impl SexualPreference {
    /// The lowercase textual form of this preference.
    pub open spec fn text(self) -> Seq<char> {
        match self {
            SexualPreference::Heterosexual => "heterosexual"@,
            SexualPreference::Homosexual => "homosexual"@,
            SexualPreference::Bisexual => "bisexual"@,
        }
    }

    /// Which preference, if any, a textual value names.
    pub open spec fn parse_spec(s: Seq<char>) -> Option<SexualPreference> {
        if s == "heterosexual"@ {
            Some(SexualPreference::Heterosexual)
        } else if s == "homosexual"@ {
            Some(SexualPreference::Homosexual)
        } else if s == "bisexual"@ {
            Some(SexualPreference::Bisexual)
        } else {
            None
        }
    }

    pub fn as_str(self) -> (r: &'static str)
        ensures
            r@ == self.text(),
    {
        match self {
            SexualPreference::Heterosexual => "heterosexual",
            SexualPreference::Homosexual => "homosexual",
            SexualPreference::Bisexual => "bisexual",
        }
    }

    pub fn parse_text(s: &str) -> (r: Option<SexualPreference>)
        ensures
            r == Self::parse_spec(s@),
    {
        if str_eq(s, "heterosexual") {
            Some(SexualPreference::Heterosexual)
        } else if str_eq(s, "homosexual") {
            Some(SexualPreference::Homosexual)
        } else if str_eq(s, "bisexual") {
            Some(SexualPreference::Bisexual)
        } else {
            None
        }
    }
}

impl EnumParse for SexualPreference {
    open spec fn text_variant(s: Seq<char>) -> Option<SexualPreference> {
        SexualPreference::parse_spec(s)
    }

    fn parse_value(s: &str) -> (r: Option<SexualPreference>) {
        SexualPreference::parse_text(s)
    }
}

impl core::str::FromStr for SexualPreference {
    type Err = EnumParseError;

    fn from_str(s: &str) -> Result<Self, Self::Err> {
        match SexualPreference::parse_text(s) {
            Some(v) => Ok(v),
            None => Err(EnumParseError {}),
        }
    }
}

} // verus!
