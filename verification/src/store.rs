//! The account store: the table of accounts, keyed by username, with the four
//! operations that the account operations need of it.

use crate::account::{Account, User};
use vstd::prelude::*;

verus! {

/// Why a store operation did not succeed.
#[derive(Clone, Copy, Debug, PartialEq, Eq, Structural)]
pub enum StoreError {
    /// An account with that username is already stored.
    DuplicateUsername,
    /// No account with that username is stored.
    NotFound,
    /// The store cannot be reached.
    StoreUnavailable,
}

/// Some account of `accounts` has the username `username`.
pub open spec fn has_account(accounts: Seq<Account>, username: Seq<char>) -> bool {
    exists|i: int| 0 <= i < accounts.len() && (#[trigger] accounts[i]).username == username
}

/// No two accounts of `accounts` share a username.
pub open spec fn distinct_usernames(accounts: Seq<Account>) -> bool {
    forall|i: int, j: int|
        0 <= i < j < accounts.len() ==> (#[trigger] accounts[i]).username != (
        #[trigger] accounts[j]).username
}

/// `accounts` with the digest of every account named `username` replaced by
/// `digest`; usernames and order stay.
pub open spec fn with_credential(accounts: Seq<Account>, username: Seq<char>, digest: Seq<char>) -> Seq<
    Account,
> {
    Seq::new(
        accounts.len(),
        |i: int|
            if accounts[i].username == username {
                Account { username: username, credential_hash: digest }
            } else {
                accounts[i]
            },
    )
}

/// How many accounts of `accounts` have the username `username`.
pub open spec fn occurrences(accounts: Seq<Account>, username: Seq<char>) -> nat
    decreases accounts.len(),
{
    if accounts.len() == 0 {
        0
    } else {
        occurrences(accounts.drop_last(), username) + if accounts.last().username == username {
            1nat
        } else {
            0nat
        }
    }
}

/// Where no two accounts share a username, a username has exactly one
/// account if it has any, and none otherwise.
pub proof fn lemma_at_most_one_account(accounts: Seq<Account>, username: Seq<char>)
    requires
        distinct_usernames(accounts),
    ensures
        occurrences(accounts, username) == if has_account(accounts, username) {
            1nat
        } else {
            0nat
        },
    decreases accounts.len(),
{
    if accounts.len() > 0 {
        let front = accounts.drop_last();
        lemma_at_most_one_account(front, username);
        if accounts.last().username != username && has_account(accounts, username) {
            let i = choose|i: int|
                0 <= i < accounts.len() && (#[trigger] accounts[i]).username == username;
            assert(front[i].username == username);
        }
    }
}

/// The table of accounts. No two of its accounts share a username; an
/// unavailable store refuses every change and shows no account.
pub struct AccountStore {
    rows: Vec<User>,
    available: bool,
}

impl AccountStore {
    /// What holds of every store: no two of its accounts share a username.
    #[verifier::type_invariant]
    pub open spec fn unique(self) -> bool {
        distinct_usernames(self.accounts())
    }

    /// The stored accounts, oldest first.
    pub closed spec fn accounts(&self) -> Seq<Account> {
        Seq::new(self.rows@.len(), |i: int| self.rows@[i]@)
    }

    /// Whether the store can be reached.
    pub closed spec fn is_available(&self) -> bool {
        self.available
    }

    /// An empty store that can be reached.
    pub fn new() -> (store: Self)
        ensures
            store.accounts() == Seq::<Account>::empty(),
            store.is_available(),
    {
        AccountStore { rows: Vec::new(), available: true }
    }

    /// A store that cannot be reached.
    pub fn unavailable() -> (store: Self)
        ensures
            store.accounts() == Seq::<Account>::empty(),
            !store.is_available(),
    {
        AccountStore { rows: Vec::new(), available: false }
    }

    /// The number of stored accounts.
    pub fn len(&self) -> (count: usize)
        ensures
            count == self.accounts().len(),
    {
        self.rows.len()
    }

    /// Where the account named `username` is stored, if it is.
    fn position(&self, username: &String) -> (at: Option<usize>)
        ensures
            distinct_usernames(self.accounts()),
            at matches Some(i) ==> i < self.accounts().len() && self.accounts()[i as int].username
                == username@,
            at is None ==> !has_account(self.accounts(), username@),
    {
        proof {
            use_type_invariant(self);
        }
        let mut i: usize = 0;
        while i < self.rows.len()
            invariant
                i <= self.rows.len(),
                distinct_usernames(self.accounts()),
                forall|k: int| 0 <= k < i ==> (#[trigger] self.accounts()[k]).username != username@,
            decreases self.rows.len() - i,
        {
            if self.rows[i].username == *username {
                return Some(i);
            }
            i += 1;
        }
        None
    }

    /// Whether an account named `username` is stored and can be reached.
    pub fn contains(&self, username: &str) -> (found: bool)
        ensures
            found == (self.is_available() && has_account(self.accounts(), username@)),
    {
        if !self.available {
            return false;
        }
        let name = username.to_owned();
        self.position(&name).is_some()
    }

    /// The account named `username`, if it is stored and can be reached.
    pub fn fetch(&self, username: &str) -> (found: Option<User>)
        ensures
            distinct_usernames(self.accounts()),
            found is Some <==> self.is_available() && has_account(self.accounts(), username@),
            found matches Some(user) ==> user@.username == username@ && self.accounts().contains(
                user@,
            ),
    {
        proof {
            use_type_invariant(self);
        }
        if !self.available {
            return None;
        }
        let name = username.to_owned();
        match self.position(&name) {
            Some(i) => {
                let row = &self.rows[i];
                let user = User { username: row.username.clone(), password: row.password.clone() };
                Some(user)
            },
            None => None,
        }
    }

    /// Stores a new account. The store itself refuses a username that it
    /// already holds, whatever the caller checked before.
    pub fn insert(&mut self, username: &str, credential_hash: &str) -> (done: Result<(), StoreError>)
        ensures
            final(self).is_available() == old(self).is_available(),
            distinct_usernames(final(self).accounts()),
            done == if !old(self).is_available() {
                Err::<(), StoreError>(StoreError::StoreUnavailable)
            } else if has_account(old(self).accounts(), username@) {
                Err::<(), StoreError>(StoreError::DuplicateUsername)
            } else {
                Ok::<(), StoreError>(())
            },
            final(self).accounts() == if done is Ok {
                old(self).accounts().push(
                    Account { username: username@, credential_hash: credential_hash@ },
                )
            } else {
                old(self).accounts()
            },
    {
        proof {
            use_type_invariant(&*self);
        }
        if !self.available {
            return Err(StoreError::StoreUnavailable);
        }
        let name = username.to_owned();
        if self.position(&name).is_some() {
            return Err(StoreError::DuplicateUsername);
        }
        let ghost before = self.accounts();
        // The rows leave the store while they change and come back complete.
        let mut rows: Vec<User> = Vec::new();
        core::mem::swap(&mut self.rows, &mut rows);
        rows.push(User { username: name, password: credential_hash.to_owned() });
        assert(Seq::new(rows@.len(), |i: int| rows@[i]@) =~= before.push(
            Account { username: username@, credential_hash: credential_hash@ },
        ));
        core::mem::swap(&mut self.rows, &mut rows);
        Ok(())
    }

    /// Replaces the digest of the account named `username`; the username stays.
    pub fn update_credential(&mut self, username: &str, new_hash: &str) -> (done: Result<
        (),
        StoreError,
    >)
        ensures
            final(self).is_available() == old(self).is_available(),
            distinct_usernames(final(self).accounts()),
            done == if !old(self).is_available() {
                Err::<(), StoreError>(StoreError::StoreUnavailable)
            } else if !has_account(old(self).accounts(), username@) {
                Err::<(), StoreError>(StoreError::NotFound)
            } else {
                Ok::<(), StoreError>(())
            },
            final(self).accounts() == if done is Ok {
                with_credential(old(self).accounts(), username@, new_hash@)
            } else {
                old(self).accounts()
            },
    {
        proof {
            use_type_invariant(&*self);
        }
        if !self.available {
            return Err(StoreError::StoreUnavailable);
        }
        let name = username.to_owned();
        match self.position(&name) {
            Some(i) => {
                let ghost before = self.accounts();
                // The rows leave the store while they change and come back complete.
                let mut rows: Vec<User> = Vec::new();
                core::mem::swap(&mut self.rows, &mut rows);
                rows.set(i, User { username: name, password: new_hash.to_owned() });
                assert(Seq::new(rows@.len(), |k: int| rows@[k]@) =~= with_credential(
                    before,
                    username@,
                    new_hash@,
                ));
                core::mem::swap(&mut self.rows, &mut rows);
                Ok(())
            },
            None => Err(StoreError::NotFound),
        }
    }
}

} // verus!
