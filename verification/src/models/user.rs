//! The stored identity record: credentials plus account status.

use vstd::prelude::*;

use crate::enums::AccountStatus;

verus! {

/// Why a stored row could not be turned into a [`User`].
#[derive(Debug, Clone, Copy, PartialEq, Eq, Structural)]
pub enum UserRowError {
    /// The row carried no account status.
    MissingStatus,
    /// The row's account status named no known variant.
    InvalidStatus,
}

/// A stored identity record.  Timestamps are Unix seconds; `deleted_at`
/// being set marks the record as logically deleted.
#[derive(Debug)]
pub struct User {
    pub id: u128,
    pub email: String,
    pub username: String,
    pub password_hash: String,
    pub email_verified_at: Option<i64>,
    pub account_status: AccountStatus,
    pub created_at: i64,
    pub updated_at: i64,
    pub deleted_at: Option<i64>,
}

impl User {
    /// Not logically deleted.
    pub open spec fn live(&self) -> bool {
        self.deleted_at is None
    }

    /// Usable for authentication: status `Active` and not logically
    /// deleted.
    pub open spec fn usable(&self) -> bool {
        self.account_status == AccountStatus::Active && self.deleted_at is None
    }

    /// Builds a record from raw row values; the status arrives as optional
    /// text and must name a known variant.
    pub fn from_row(
        id: u128,
        email: String,
        username: String,
        password_hash: String,
        email_verified_at: Option<i64>,
        account_status: Option<String>,
        created_at: i64,
        updated_at: i64,
        deleted_at: Option<i64>,
    ) -> (r: Result<Self, UserRowError>)
        ensures
            match r {
                Ok(u) => {
                    &&& account_status matches Some(st)
                        && AccountStatus::parse_spec(st@) == Some(u.account_status)
                    &&& u.id == id
                    &&& u.email@ == email@
                    &&& u.username@ == username@
                    &&& u.password_hash@ == password_hash@
                    &&& u.email_verified_at == email_verified_at
                    &&& u.created_at == created_at
                    &&& u.updated_at == updated_at
                    &&& u.deleted_at == deleted_at
                },
                Err(UserRowError::MissingStatus) => account_status is None,
                Err(UserRowError::InvalidStatus) => (account_status matches Some(st)
                    && AccountStatus::parse_spec(st@) is None),
            },
    {
        let status_text = match account_status {
            Some(s) => s,
            None => {
                return Err(UserRowError::MissingStatus);
            },
        };
        let status = match AccountStatus::parse_text(status_text.as_str()) {
            Some(st) => st,
            None => {
                return Err(UserRowError::InvalidStatus);
            },
        };
        Ok(User {
            id,
            email,
            username,
            password_hash,
            email_verified_at,
            account_status: status,
            created_at,
            updated_at,
            deleted_at,
        })
    }

    pub fn is_active(&self) -> (r: bool)
        ensures
            r == self.usable(),
    {
        self.account_status == AccountStatus::Active && self.deleted_at.is_none()
    }

    pub fn is_email_verified(&self) -> (r: bool)
        ensures
            r == (self.email_verified_at is Some),
    {
        self.email_verified_at.is_some()
    }
}

impl Clone for User {
    /// An exact copy of the record.
    fn clone(&self) -> (r: Self)
        ensures
            r == *self,
    {
        User {
            id: self.id,
            email: self.email.clone(),
            username: self.username.clone(),
            password_hash: self.password_hash.clone(),
            email_verified_at: self.email_verified_at,
            account_status: self.account_status,
            created_at: self.created_at,
            updated_at: self.updated_at,
            deleted_at: self.deleted_at,
        }
    }
}

} // verus!
