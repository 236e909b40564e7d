//! The credential store: identity records keyed by id, with email and
//! username unique among live (not soft-deleted) records.
//!
//! This is the repository the orchestration layer works against.  Records
//! are only ever soft-deleted, never removed, so ids stay unique across
//! the whole history.

use vstd::prelude::*;
use vstd::multiset::Multiset;

use crate::enums::AccountStatus;
use crate::models::User;
use crate::strutil::str_eq;

verus! {

/// Why a store operation failed.
#[derive(Debug, Clone, Copy, PartialEq, Eq, Structural)]
pub enum StoreError {
    /// A live record already carries this email.
    DuplicateEmail,
    /// A live record already carries this username.
    DuplicateUsername,
    /// A record (live or deleted) already carries this id.
    DuplicateId,
    /// No live record carries this id.
    NotFound,
}

/// Index of the first live record with this email, or `-1`.
pub open spec fn email_idx(s: Seq<User>, email: Seq<char>) -> int
    decreases s.len(),
{
    if s.len() == 0 {
        -1
    } else if s[0].live() && s[0].email@ == email {
        0
    } else {
        let r = email_idx(s.drop_first(), email);
        if r < 0 {
            -1
        } else {
            r + 1
        }
    }
}

/// Index of the first live record with this username, or `-1`.
pub open spec fn username_idx(s: Seq<User>, username: Seq<char>) -> int
    decreases s.len(),
{
    if s.len() == 0 {
        -1
    } else if s[0].live() && s[0].username@ == username {
        0
    } else {
        let r = username_idx(s.drop_first(), username);
        if r < 0 {
            -1
        } else {
            r + 1
        }
    }
}

/// Index of the first live record with this id, or `-1`.
pub open spec fn live_idx(s: Seq<User>, id: u128) -> int
    decreases s.len(),
{
    if s.len() == 0 {
        -1
    } else if s[0].live() && s[0].id == id {
        0
    } else {
        let r = live_idx(s.drop_first(), id);
        if r < 0 {
            -1
        } else {
            r + 1
        }
    }
}

/// The first live record with this email, if any.
pub open spec fn lookup_email(s: Seq<User>, email: Seq<char>) -> Option<User> {
    let k = email_idx(s, email);
    if k < 0 {
        None
    } else {
        Some(s[k])
    }
}

/// The first live record with this username, if any.
pub open spec fn lookup_username(s: Seq<User>, username: Seq<char>) -> Option<User> {
    let k = username_idx(s, username);
    if k < 0 {
        None
    } else {
        Some(s[k])
    }
}

/// The first live record with this id, if any.
pub open spec fn lookup_id(s: Seq<User>, id: u128) -> Option<User> {
    let k = live_idx(s, id);
    if k < 0 {
        None
    } else {
        Some(s[k])
    }
}

/// Whether any record, live or deleted, carries this id.
pub open spec fn id_present(s: Seq<User>, id: u128) -> bool {
    exists|i: int| 0 <= i < s.len() && (#[trigger] s[i].id) == id
}

/// How many records are usable: status `Active` and live.
pub open spec fn active_count(s: Seq<User>) -> nat
    decreases s.len(),
{
    if s.len() == 0 {
        0
    } else {
        (if s[0].usable() {
            1nat
        } else {
            0nat
        }) + active_count(s.drop_first())
    }
}

pub proof fn lemma_email_idx(s: Seq<User>, email: Seq<char>)
    ensures
        email_idx(s, email) == -1 ==> forall|i: int|
            0 <= i < s.len() ==> !((#[trigger] s[i]).live() && s[i].email@ == email),
        email_idx(s, email) >= 0 ==> email_idx(s, email) < s.len() && s[email_idx(s, email)].live()
            && s[email_idx(s, email)].email@ == email,
    decreases s.len(),
{
    if s.len() > 0 && !(s[0].live() && s[0].email@ == email) {
        lemma_email_idx(s.drop_first(), email);
        if email_idx(s, email) == -1 {
            assert forall|i: int| 0 <= i < s.len() implies !((#[trigger] s[i]).live()
                && s[i].email@ == email) by {
                if i > 0 {
                    assert(s.drop_first()[i - 1] == s[i]);
                }
            }
        } else {
            assert(s.drop_first()[email_idx(s.drop_first(), email)] == s[email_idx(s, email)]);
        }
    }
}

pub proof fn lemma_email_idx_is(s: Seq<User>, email: Seq<char>, i: int)
    requires
        0 <= i < s.len(),
        s[i].live() && s[i].email@ == email,
        forall|k: int| 0 <= k < i ==> !((#[trigger] s[k]).live() && s[k].email@ == email),
    ensures
        email_idx(s, email) == i,
    decreases s.len(),
{
    if i > 0 {
        assert(!(s[0].live() && s[0].email@ == email));
        assert(s.drop_first()[i - 1] == s[i]);
        assert forall|k: int| 0 <= k < i - 1 implies !((#[trigger] s.drop_first()[k]).live()
            && s.drop_first()[k].email@ == email) by {
            assert(s.drop_first()[k] == s[k + 1]);
        }
        lemma_email_idx_is(s.drop_first(), email, i - 1);
    }
}

pub proof fn lemma_username_idx(s: Seq<User>, username: Seq<char>)
    ensures
        username_idx(s, username) == -1 ==> forall|i: int|
            0 <= i < s.len() ==> !((#[trigger] s[i]).live() && s[i].username@ == username),
        username_idx(s, username) >= 0 ==> username_idx(s, username) < s.len() && s[username_idx(
            s,
            username,
        )].live() && s[username_idx(s, username)].username@ == username,
    decreases s.len(),
{
    if s.len() > 0 && !(s[0].live() && s[0].username@ == username) {
        lemma_username_idx(s.drop_first(), username);
        if username_idx(s, username) == -1 {
            assert forall|i: int| 0 <= i < s.len() implies !((#[trigger] s[i]).live()
                && s[i].username@ == username) by {
                if i > 0 {
                    assert(s.drop_first()[i - 1] == s[i]);
                }
            }
        } else {
            assert(s.drop_first()[username_idx(s.drop_first(), username)] == s[username_idx(
                s,
                username,
            )]);
        }
    }
}

pub proof fn lemma_username_idx_is(s: Seq<User>, username: Seq<char>, i: int)
    requires
        0 <= i < s.len(),
        s[i].live() && s[i].username@ == username,
        forall|k: int| 0 <= k < i ==> !((#[trigger] s[k]).live() && s[k].username@ == username),
    ensures
        username_idx(s, username) == i,
    decreases s.len(),
{
    if i > 0 {
        assert(!(s[0].live() && s[0].username@ == username));
        assert(s.drop_first()[i - 1] == s[i]);
        assert forall|k: int| 0 <= k < i - 1 implies !((#[trigger] s.drop_first()[k]).live()
            && s.drop_first()[k].username@ == username) by {
            assert(s.drop_first()[k] == s[k + 1]);
        }
        lemma_username_idx_is(s.drop_first(), username, i - 1);
    }
}

pub proof fn lemma_live_idx(s: Seq<User>, id: u128)
    ensures
        live_idx(s, id) == -1 ==> forall|i: int|
            0 <= i < s.len() ==> !((#[trigger] s[i]).live() && s[i].id == id),
        live_idx(s, id) >= 0 ==> live_idx(s, id) < s.len() && s[live_idx(s, id)].live() && s[live_idx(
            s,
            id,
        )].id == id,
    decreases s.len(),
{
    if s.len() > 0 && !(s[0].live() && s[0].id == id) {
        lemma_live_idx(s.drop_first(), id);
        if live_idx(s, id) == -1 {
            assert forall|i: int| 0 <= i < s.len() implies !((#[trigger] s[i]).live() && s[i].id
                == id) by {
                if i > 0 {
                    assert(s.drop_first()[i - 1] == s[i]);
                }
            }
        } else {
            assert(s.drop_first()[live_idx(s.drop_first(), id)] == s[live_idx(s, id)]);
        }
    }
}

pub proof fn lemma_live_idx_is(s: Seq<User>, id: u128, i: int)
    requires
        0 <= i < s.len(),
        s[i].live() && s[i].id == id,
        forall|k: int| 0 <= k < i ==> !((#[trigger] s[k]).live() && s[k].id == id),
    ensures
        live_idx(s, id) == i,
    decreases s.len(),
{
    if i > 0 {
        assert(!(s[0].live() && s[0].id == id));
        assert(s.drop_first()[i - 1] == s[i]);
        assert forall|k: int| 0 <= k < i - 1 implies !((#[trigger] s.drop_first()[k]).live()
            && s.drop_first()[k].id == id) by {
            assert(s.drop_first()[k] == s[k + 1]);
        }
        lemma_live_idx_is(s.drop_first(), id, i - 1);
    }
}

/// Identity records, stored in insertion order.
#[derive(Debug)]
pub struct UserStore {
    users: Vec<User>,
}

impl UserStore {
    /// The stored records, oldest first.
    pub closed spec fn records(&self) -> Seq<User> {
        self.users@
    }

    /// The store's invariant: email and username unique among live
    /// records, id unique among all records.
    pub open spec fn wf(&self) -> bool {
        let s = self.records();
        &&& forall|i: int, j: int|
            #![trigger s[i], s[j]]
            0 <= i < j < s.len() && s[i].live() && s[j].live() ==> s[i].email@ != s[j].email@
                && s[i].username@ != s[j].username@
        &&& forall|i: int, j: int| #![trigger s[i].id, s[j].id] 0 <= i < j < s.len() ==> s[i].id != s[j].id
    }

    pub fn new() -> (r: Self)
        ensures
            r.records() =~= Seq::<User>::empty(),
            r.wf(),
    {
        Self { users: Vec::new() }
    }

    /// The first live record with this email, if any.
    pub fn find_by_email(&self, email: &str) -> (r: Option<User>)
        ensures
            r == lookup_email(self.records(), email@),
    {
        let ghost s = self.records();
        let n = self.users.len();
        let mut i: usize = 0;
        while i < n
            invariant
                n == s.len(),
                s == self.records(),
                i <= n,
                forall|k: int| 0 <= k < i ==> !((#[trigger] s[k]).live() && s[k].email@ == email@),
            decreases n - i,
        {
            let u = &self.users[i];
            if u.deleted_at.is_none() && str_eq(u.email.as_str(), email) {
                proof {
                    lemma_email_idx_is(s, email@, i as int);
                }
                return Some(self.users[i].clone());
            }
            i += 1;
        }
        proof {
            lemma_email_idx(s, email@);
        }
        None
    }

    /// The first live record with this username, if any.
    pub fn find_by_username(&self, username: &str) -> (r: Option<User>)
        ensures
            r == lookup_username(self.records(), username@),
    {
        let ghost s = self.records();
        let n = self.users.len();
        let mut i: usize = 0;
        while i < n
            invariant
                n == s.len(),
                s == self.records(),
                i <= n,
                forall|k: int|
                    0 <= k < i ==> !((#[trigger] s[k]).live() && s[k].username@ == username@),
            decreases n - i,
        {
            let u = &self.users[i];
            if u.deleted_at.is_none() && str_eq(u.username.as_str(), username) {
                proof {
                    lemma_username_idx_is(s, username@, i as int);
                }
                return Some(self.users[i].clone());
            }
            i += 1;
        }
        proof {
            lemma_username_idx(s, username@);
        }
        None
    }

    /// The first live record with this id, if any.
    pub fn find_by_id(&self, id: u128) -> (r: Option<User>)
        ensures
            r == lookup_id(self.records(), id),
    {
        let ghost s = self.records();
        let n = self.users.len();
        let mut i: usize = 0;
        while i < n
            invariant
                n == s.len(),
                s == self.records(),
                i <= n,
                forall|k: int| 0 <= k < i ==> !((#[trigger] s[k]).live() && s[k].id == id),
            decreases n - i,
        {
            let u = &self.users[i];
            if u.deleted_at.is_none() && u.id == id {
                proof {
                    lemma_live_idx_is(s, id, i as int);
                }
                return Some(self.users[i].clone());
            }
            i += 1;
        }
        proof {
            lemma_live_idx(s, id);
        }
        None
    }

    /// Whether any record, live or deleted, carries this id.
    fn has_id(&self, id: u128) -> (r: bool)
        ensures
            r == id_present(self.records(), id),
    {
        let ghost s = self.records();
        let n = self.users.len();
        let mut i: usize = 0;
        while i < n
            invariant
                n == s.len(),
                s == self.records(),
                i <= n,
                forall|k: int| 0 <= k < i ==> (#[trigger] s[k].id) != id,
            decreases n - i,
        {
            if self.users[i].id == id {
                return true;
            }
            i += 1;
        }
        false
    }

    /// Creates a live record with a fresh id, the given credentials, an
    /// unverified email and status `Active`; `now` becomes both
    /// timestamps.  Fails when the email or username is already bound to
    /// a live record, or the id is already taken.
    pub fn create_user(
        &mut self,
        id: u128,
        email: &str,
        username: &str,
        password_hash: &str,
        now: i64,
    ) -> (r: Result<User, StoreError>)
        requires
            old(self).wf(),
        ensures
            final(self).wf(),
            match r {
                Ok(u) => {
                    &&& lookup_email(old(self).records(), email@) is None
                    &&& lookup_username(old(self).records(), username@) is None
                    &&& !id_present(old(self).records(), id)
                    &&& u.id == id
                    &&& u.email@ == email@
                    &&& u.username@ == username@
                    &&& u.password_hash@ == password_hash@
                    &&& u.email_verified_at is None
                    &&& u.account_status == AccountStatus::Active
                    &&& u.created_at == now
                    &&& u.updated_at == now
                    &&& u.deleted_at is None
                    &&& final(self).records() =~= old(self).records().push(u)
                },
                Err(StoreError::DuplicateEmail) => (lookup_email(old(self).records(), email@)
                    is Some) && final(self).records() == old(self).records(),
                Err(StoreError::DuplicateUsername) => {
                    &&& lookup_email(old(self).records(), email@) is None
                    &&& lookup_username(old(self).records(), username@) is Some
                    &&& final(self).records() == old(self).records()
                },
                Err(StoreError::DuplicateId) => {
                    &&& lookup_email(old(self).records(), email@) is None
                    &&& lookup_username(old(self).records(), username@) is None
                    &&& id_present(old(self).records(), id)
                    &&& final(self).records() == old(self).records()
                },
                Err(StoreError::NotFound) => false,
            },
    {
        let ghost s0 = self.records();
        if self.find_by_email(email).is_some() {
            return Err(StoreError::DuplicateEmail);
        }
        if self.find_by_username(username).is_some() {
            return Err(StoreError::DuplicateUsername);
        }
        if self.has_id(id) {
            return Err(StoreError::DuplicateId);
        }
        let user = User {
            id,
            email: email.to_owned(),
            username: username.to_owned(),
            password_hash: password_hash.to_owned(),
            email_verified_at: None,
            account_status: AccountStatus::Active,
            created_at: now,
            updated_at: now,
            deleted_at: None,
        };
        let result = user.clone();
        self.users.push(user);
        proof {
            lemma_email_idx(s0, email@);
            lemma_username_idx(s0, username@);
            let s1 = self.records();
            assert(s1 =~= s0.push(result));
            assert forall|i: int, j: int|
                #![trigger s1[i], s1[j]]
                0 <= i < j < s1.len() && s1[i].live() && s1[j].live() implies s1[i].email@
                != s1[j].email@ && s1[i].username@ != s1[j].username@ by {
                if j == s1.len() - 1 {
                    assert(s1[i] == s0[i]);
                }
            }
            assert forall|i: int, j: int| #![trigger s1[i].id, s1[j].id] 0 <= i < j < s1.len()
                implies s1[i].id != s1[j].id by {
                if j == s1.len() - 1 {
                    assert(s1[i] == s0[i]);
                    assert(s0[i].id != id);
                }
            }
        }
        Ok(result)
    }

    /// Replaces the password hash of the live record with this id.
    pub fn update_password_hash(&mut self, id: u128, password_hash: &str) -> (r: Result<
        User,
        StoreError,
    >)
        requires
            old(self).wf(),
        ensures
            final(self).wf(),
            match r {
                Ok(u) => {
                    let s0 = old(self).records();
                    let k = live_idx(s0, id);
                    &&& k >= 0
                    &&& final(self).records() =~= s0.update(k, u)
                    &&& u.id == s0[k].id
                    &&& u.email@ == s0[k].email@
                    &&& u.username@ == s0[k].username@
                    &&& u.password_hash@ == password_hash@
                    &&& u.email_verified_at == s0[k].email_verified_at
                    &&& u.account_status == s0[k].account_status
                    &&& u.created_at == s0[k].created_at
                    &&& u.updated_at == s0[k].updated_at
                    &&& u.deleted_at == s0[k].deleted_at
                },
                Err(StoreError::NotFound) => live_idx(old(self).records(), id) < 0 && final(self).records() == old(self).records(),
                Err(_) => false,
            },
    {
        let ghost s0 = self.records();
        let n = self.users.len();
        let mut i: usize = 0;
        while i < n
            invariant
                n == s0.len(),
                s0 == self.records(),
                old(self).wf(),
                s0 == old(self).records(),
                i <= n,
                forall|k: int| 0 <= k < i ==> !((#[trigger] s0[k]).live() && s0[k].id == id),
            decreases n - i,
        {
            if self.users[i].deleted_at.is_none() && self.users[i].id == id {
                proof {
                    lemma_live_idx_is(s0, id, i as int);
                }
                self.users[i].password_hash = password_hash.to_owned();
                let result = self.users[i].clone();
                proof {
                    let s1 = self.records();
                    assert(s1 =~= s0.update(i as int, result));
                }
                return Ok(result);
            }
            i += 1;
        }
        proof {
            lemma_live_idx(s0, id);
        }
        Err(StoreError::NotFound)
    }

    /// Marks the email of the live record with this id as verified at
    /// `now`.
    pub fn verify_email(&mut self, id: u128, now: i64) -> (r: Result<User, StoreError>)
        requires
            old(self).wf(),
        ensures
            final(self).wf(),
            match r {
                Ok(u) => {
                    let s0 = old(self).records();
                    let k = live_idx(s0, id);
                    &&& k >= 0
                    &&& final(self).records() =~= s0.update(k, u)
                    &&& u.id == s0[k].id
                    &&& u.email@ == s0[k].email@
                    &&& u.username@ == s0[k].username@
                    &&& u.password_hash@ == s0[k].password_hash@
                    &&& u.email_verified_at == Some(now)
                    &&& u.account_status == s0[k].account_status
                    &&& u.created_at == s0[k].created_at
                    &&& u.updated_at == s0[k].updated_at
                    &&& u.deleted_at == s0[k].deleted_at
                },
                Err(StoreError::NotFound) => live_idx(old(self).records(), id) < 0 && final(self).records() == old(self).records(),
                Err(_) => false,
            },
    {
        let ghost s0 = self.records();
        let n = self.users.len();
        let mut i: usize = 0;
        while i < n
            invariant
                n == s0.len(),
                s0 == self.records(),
                old(self).wf(),
                s0 == old(self).records(),
                i <= n,
                forall|k: int| 0 <= k < i ==> !((#[trigger] s0[k]).live() && s0[k].id == id),
            decreases n - i,
        {
            if self.users[i].deleted_at.is_none() && self.users[i].id == id {
                proof {
                    lemma_live_idx_is(s0, id, i as int);
                }
                self.users[i].email_verified_at = Some(now);
                let result = self.users[i].clone();
                proof {
                    let s1 = self.records();
                    assert(s1 =~= s0.update(i as int, result));
                }
                return Ok(result);
            }
            i += 1;
        }
        proof {
            lemma_live_idx(s0, id);
        }
        Err(StoreError::NotFound)
    }

    /// Replaces the account status of the live record with this id.
    pub fn update_account_status(&mut self, id: u128, status: AccountStatus) -> (r: Result<
        User,
        StoreError,
    >)
        requires
            old(self).wf(),
        ensures
            final(self).wf(),
            match r {
                Ok(u) => {
                    let s0 = old(self).records();
                    let k = live_idx(s0, id);
                    &&& k >= 0
                    &&& final(self).records() =~= s0.update(k, u)
                    &&& u.id == s0[k].id
                    &&& u.email@ == s0[k].email@
                    &&& u.username@ == s0[k].username@
                    &&& u.password_hash@ == s0[k].password_hash@
                    &&& u.email_verified_at == s0[k].email_verified_at
                    &&& u.account_status == status
                    &&& u.created_at == s0[k].created_at
                    &&& u.updated_at == s0[k].updated_at
                    &&& u.deleted_at == s0[k].deleted_at
                },
                Err(StoreError::NotFound) => live_idx(old(self).records(), id) < 0 && final(self).records() == old(self).records(),
                Err(_) => false,
            },
    {
        let ghost s0 = self.records();
        let n = self.users.len();
        let mut i: usize = 0;
        while i < n
            invariant
                n == s0.len(),
                s0 == self.records(),
                old(self).wf(),
                s0 == old(self).records(),
                i <= n,
                forall|k: int| 0 <= k < i ==> !((#[trigger] s0[k]).live() && s0[k].id == id),
            decreases n - i,
        {
            if self.users[i].deleted_at.is_none() && self.users[i].id == id {
                proof {
                    lemma_live_idx_is(s0, id, i as int);
                }
                self.users[i].account_status = status;
                let result = self.users[i].clone();
                proof {
                    let s1 = self.records();
                    assert(s1 =~= s0.update(i as int, result));
                }
                return Ok(result);
            }
            i += 1;
        }
        proof {
            lemma_live_idx(s0, id);
        }
        Err(StoreError::NotFound)
    }

    /// Soft-deletes the live record with this id: sets `deleted_at` to
    /// `now`, keeping the record.
    pub fn soft_delete(&mut self, id: u128, now: i64) -> (r: Result<User, StoreError>)
        requires
            old(self).wf(),
        ensures
            final(self).wf(),
            match r {
                Ok(u) => {
                    let s0 = old(self).records();
                    let k = live_idx(s0, id);
                    &&& k >= 0
                    &&& final(self).records() =~= s0.update(k, u)
                    &&& u.id == s0[k].id
                    &&& u.email@ == s0[k].email@
                    &&& u.username@ == s0[k].username@
                    &&& u.password_hash@ == s0[k].password_hash@
                    &&& u.email_verified_at == s0[k].email_verified_at
                    &&& u.account_status == s0[k].account_status
                    &&& u.created_at == s0[k].created_at
                    &&& u.updated_at == s0[k].updated_at
                    &&& u.deleted_at == Some(now)
                },
                Err(StoreError::NotFound) => live_idx(old(self).records(), id) < 0 && final(self).records() == old(self).records(),
                Err(_) => false,
            },
    {
        let ghost s0 = self.records();
        let n = self.users.len();
        let mut i: usize = 0;
        while i < n
            invariant
                n == s0.len(),
                s0 == self.records(),
                old(self).wf(),
                s0 == old(self).records(),
                i <= n,
                forall|k: int| 0 <= k < i ==> !((#[trigger] s0[k]).live() && s0[k].id == id),
            decreases n - i,
        {
            if self.users[i].deleted_at.is_none() && self.users[i].id == id {
                proof {
                    lemma_live_idx_is(s0, id, i as int);
                }
                self.users[i].deleted_at = Some(now);
                let result = self.users[i].clone();
                proof {
                    let s1 = self.records();
                    assert(s1 =~= s0.update(i as int, result));
                }
                return Ok(result);
            }
            i += 1;
        }
        proof {
            lemma_live_idx(s0, id);
        }
        Err(StoreError::NotFound)
    }

    /// A page of the usable records, most recently created first:
    /// skips `offset` of them and yields at most `limit`, each a usable
    /// record of the store, in descending creation order.
    pub fn find_active_users(&self, limit: usize, offset: usize) -> (r: Vec<User>)
        ensures
            r@.len() == vstd::math::min(
                limit as int,
                vstd::math::max(active_count(self.records()) - offset, 0),
            ),
            sorted_desc_by_created(r@),
            r@.to_multiset().subset_of(active_filter(self.records()).to_multiset()),
            forall|k: int|
                0 <= k < r@.len() ==> (#[trigger] r@[k]).usable() && self.records().contains(
                    r@[k],
                ),
            offset <= active_count(self.records()) ==> (exists|sv: Seq<User>| {
                &&& #[trigger] sv.to_multiset() == active_filter(self.records()).to_multiset()
                &&& sorted_desc_by_created(sv)
                &&& r@ =~= sv.subrange(offset as int, offset + r@.len())
            }),
    {
        let ghost s = self.records();
        let mut active: Vec<User> = Vec::new();
        let n = self.users.len();
        let mut i: usize = 0;
        proof {
            assert(s.take(0) =~= Seq::<User>::empty());
        }
        while i < n
            invariant
                n == s.len(),
                s == self.records(),
                i <= n,
                active@ =~= active_filter(s.take(i as int)),
            decreases n - i,
        {
            proof {
                assert(s.take(i + 1) =~= s.take(i as int).push(s[i as int]));
                lemma_active_filter_push(s.take(i as int), s[i as int]);
            }
            let u = &self.users[i];
            if u.deleted_at.is_none() && u.account_status == AccountStatus::Active {
                active.push(self.users[i].clone());
            }
            i += 1;
        }
        proof {
            assert(s.take(n as int) =~= s);
        }
        let sorted_vec = sort_desc_by_created(active);
        let ghost f = active_filter(s);
        let total = sorted_vec.len();
        let mut page: Vec<User> = Vec::new();
        if offset < total {
            let mut k: usize = offset;
            while k < total && page.len() < limit
                invariant
                    total == sorted_vec@.len(),
                    offset <= k <= total,
                    page@ =~= sorted_vec@.subrange(offset as int, k as int),
                    page@.len() <= limit,
                    forall|k1: int, k2: int|
                        0 <= k1 < k2 < sorted_vec@.len() ==> #[trigger] sorted_vec@[k1].created_at
                            >= #[trigger] sorted_vec@[k2].created_at,
                decreases total - k,
            {
                page.push(sorted_vec[k].clone());
                proof {
                    assert(page@ =~= sorted_vec@.subrange(offset as int, k + 1));
                }
                k += 1;
            }
        }
        proof {
            broadcast use vstd::seq_lib::group_to_multiset_ensures;

            let sv = sorted_vec@;
            assert(sv.to_multiset() == f.to_multiset());
            if offset < total {
                assert(sv =~= sv.subrange(0, offset as int) + (sv.subrange(
                    offset as int,
                    offset + page@.len(),
                ) + sv.subrange(offset + page@.len(), total as int)));
                vstd::seq_lib::lemma_multiset_commutative(
                    sv.subrange(0, offset as int),
                    sv.subrange(offset as int, offset + page@.len()) + sv.subrange(
                        offset + page@.len(),
                        total as int,
                    ),
                );
                vstd::seq_lib::lemma_multiset_commutative(
                    sv.subrange(offset as int, offset + page@.len()),
                    sv.subrange(offset + page@.len(), total as int),
                );
                assert(page@ =~= sv.subrange(offset as int, offset + page@.len()));
                assert forall|x: User| true implies page@.to_multiset().count(x)
                    <= f.to_multiset().count(x) by {
                    assert(sv.to_multiset().count(x) == sv.subrange(
                        0,
                        offset as int,
                    ).to_multiset().count(x) + (page@.to_multiset().count(x) + sv.subrange(
                        offset + page@.len(),
                        total as int,
                    ).to_multiset().count(x)));
                }
            } else {
                assert(page@ =~= Seq::<User>::empty());
                assert(page@.to_multiset() =~= Multiset::<User>::empty());
            }
            assert forall|k: int| 0 <= k < page@.len() implies (#[trigger] page@[k]).usable()
                && self.records().contains(page@[k]) by {
                assert(page@.to_multiset().count(page@[k]) > 0);
                assert(f.to_multiset().count(page@[k]) > 0);
                assert(f.contains(page@[k]));
                lemma_active_filter_elems(s, page@[k]);
            }
            lemma_active_filter_count(s);
            if offset <= f.len() {
                assert(sv.to_multiset().len() == f.to_multiset().len());
                assert(sv.len() == f.len());
                if offset >= total {
                    assert(page@ =~= sv.subrange(offset as int, offset + page@.len()));
                }
                assert(sv.to_multiset() == f.to_multiset() && sorted_desc_by_created(sv) && page@
                    =~= sv.subrange(offset as int, offset + page@.len()));
            }
        }
        page
    }

    /// How many records are usable: status `Active` and live.
    pub fn count_active_users(&self) -> (r: usize)
        ensures
            r == active_count(self.records()),
    {
        let ghost s = self.records();
        let n = self.users.len();
        let mut i: usize = 0;
        let mut cnt: usize = 0;
        proof {
            assert(s.skip(0) =~= s);
        }
        while i < n
            invariant
                n == s.len(),
                s == self.records(),
                i <= n,
                cnt <= i,
                cnt + active_count(s.skip(i as int)) == active_count(s),
            decreases n - i,
        {
            proof {
                lemma_active_count_skip(s, i as int);
            }
            let u = &self.users[i];
            if u.deleted_at.is_none() && u.account_status == AccountStatus::Active {
                cnt += 1;
            }
            i += 1;
        }
        proof {
            assert(s.skip(n as int) =~= Seq::<User>::empty());
        }
        cnt
    }
}

/// The usable records, in store order.
pub open spec fn active_filter(s: Seq<User>) -> Seq<User>
    decreases s.len(),
{
    if s.len() == 0 {
        Seq::empty()
    } else if s[0].usable() {
        seq![s[0]] + active_filter(s.drop_first())
    } else {
        active_filter(s.drop_first())
    }
}

/// Descending order of creation time.
pub open spec fn sorted_desc_by_created(s: Seq<User>) -> bool {
    forall|k1: int, k2: int|
        0 <= k1 < k2 < s.len() ==> #[trigger] s[k1].created_at >= #[trigger] s[k2].created_at
}

/// The usable filter keeps exactly as many records as the usable count.
proof fn lemma_active_filter_count(s: Seq<User>)
    ensures
        active_filter(s).len() == active_count(s),
    decreases s.len(),
{
    if s.len() > 0 {
        lemma_active_filter_count(s.drop_first());
    }
}

/// Extending a sequence by one record extends its usable filter by that
/// record when it is usable.
pub proof fn lemma_active_filter_push(s: Seq<User>, u: User)
    ensures
        active_filter(s.push(u)) =~= (if u.usable() {
            active_filter(s).push(u)
        } else {
            active_filter(s)
        }),
    decreases s.len(),
{
    reveal_with_fuel(active_filter, 3);
    if s.len() == 0 {
        assert(s.push(u).drop_first() =~= Seq::<User>::empty());
        assert(s.push(u)[0] == u);
        if u.usable() {
            assert(active_filter(s.push(u)) == seq![u] + active_filter(Seq::<User>::empty()));
            assert(seq![u] + Seq::<User>::empty() =~= seq![u]);
            assert(active_filter(s).push(u) =~= seq![u]);
        }
    } else {
        assert(s.push(u)[0] == s[0]);
        assert(s.push(u).drop_first() =~= s.drop_first().push(u));
        lemma_active_filter_push(s.drop_first(), u);
        if u.usable() && s[0].usable() {
            assert(seq![s[0]] + active_filter(s.drop_first()).push(u) =~= (seq![s[0]]
                + active_filter(s.drop_first())).push(u));
        }
    }
}

/// Every record the usable filter yields is usable and comes from the
/// sequence.
pub proof fn lemma_active_filter_elems(s: Seq<User>, x: User)
    requires
        active_filter(s).contains(x),
    ensures
        x.usable(),
        s.contains(x),
    decreases s.len(),
{
    if s.len() > 0 {
        if s[0].usable() && x == s[0] {
        } else {
            if s[0].usable() {
                let f = active_filter(s);
                let i = choose|i: int| 0 <= i < f.len() && f[i] == x;
                assert(f == seq![s[0]] + active_filter(s.drop_first()));
                assert(i > 0);
                assert(active_filter(s.drop_first())[i - 1] == x);
            }
            lemma_active_filter_elems(s.drop_first(), x);
            let j = choose|j: int| 0 <= j < s.drop_first().len() && s.drop_first()[j] == x;
            assert(s[j + 1] == x);
        }
    }
}

/// A well-formed store holds at most one live record for any email.
/// Together with [`crate::auth::register`]'s contract this is the
/// duplicate-registration law: a first registration leaves one live
/// record for the email, and a second one with the same email is
/// refused with a conflict and changes nothing, so exactly one live
/// record for that email remains.
pub proof fn lemma_one_live_record_per_email(store: &UserStore, i: int, j: int)
    requires
        store.wf(),
        0 <= i < store.records().len(),
        0 <= j < store.records().len(),
        store.records()[i].live(),
        store.records()[j].live(),
        store.records()[i].email@ == store.records()[j].email@,
    ensures
        i == j,
{
    let s = store.records();
    if i < j {
        assert(s[i].email@ != s[j].email@);
    } else if j < i {
        assert(s[j].email@ != s[i].email@);
    }
}

/// Selection sort, descending by creation time.
fn sort_desc_by_created(input: Vec<User>) -> (r: Vec<User>)
    ensures
        r@.to_multiset() == input@.to_multiset(),
        r@.len() == input@.len(),
        sorted_desc_by_created(r@),
{
    let ghost m0 = input@.to_multiset();
    let ghost len0 = input@.len();
    let mut rest = input;
    let mut out: Vec<User> = Vec::new();
    proof {
        broadcast use vstd::seq_lib::group_to_multiset_ensures;

        assert(out@.to_multiset().add(rest@.to_multiset()) =~= m0);
    }
    while rest.len() > 0
        invariant
            out@.to_multiset().add(rest@.to_multiset()) == m0,
            out@.len() + rest@.len() == len0,
            forall|k1: int, k2: int|
                0 <= k1 < k2 < out@.len() ==> #[trigger] out@[k1].created_at
                    >= #[trigger] out@[k2].created_at,
            forall|a: int, b: int|
                0 <= a < out@.len() && 0 <= b < rest@.len() ==> #[trigger] out@[a].created_at
                    >= #[trigger] rest@[b].created_at,
        decreases rest@.len(),
    {
        let mut m: usize = 0;
        let mut j: usize = 1;
        while j < rest.len()
            invariant
                0 < rest@.len(),
                m < j,
                j <= rest@.len(),
                forall|k: int|
                    0 <= k < j ==> rest@[m as int].created_at >= #[trigger] rest@[k].created_at,
            decreases rest@.len() - j,
        {
            if rest[j].created_at > rest[m].created_at {
                m = j;
            }
            j += 1;
        }
        let ghost rest0 = rest@;
        let u = rest.remove(m);
        out.push(u);
        proof {
            broadcast use vstd::seq_lib::group_to_multiset_ensures;

            assert(rest@ == rest0.remove(m as int));
            assert(rest0.to_multiset().count(u) > 0) by {
                assert(rest0[m as int] == u);
                assert(rest0.contains(u));
            }
            assert(out@.to_multiset().add(rest@.to_multiset()) =~= m0);
            assert forall|a: int, b: int|
                0 <= a < out@.len() && 0 <= b < rest@.len() implies #[trigger] out@[a].created_at
                >= #[trigger] rest@[b].created_at by {
                assert(rest@[b] == (if b < m { rest0[b] } else { rest0[b + 1] }));
                if a < out@.len() - 1 {
                    assert(out@[a].created_at >= rest0[if b < m as int {
                        b
                    } else {
                        b + 1
                    }].created_at);
                } else {
                    assert(out@[a] == u);
                }
            }
        }
    }
    out
}

proof fn lemma_active_count_skip(s: Seq<User>, i: int)
    requires
        0 <= i < s.len(),
    ensures
        active_count(s.skip(i)) == (if s[i].usable() {
            1nat
        } else {
            0nat
        }) + active_count(s.skip(i + 1)),
{
    assert(s.skip(i)[0] == s[i]);
    assert(s.skip(i).drop_first() =~= s.skip(i + 1));
}

} // verus!
