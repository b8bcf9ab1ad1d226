//! The account: a username and the digest stored in place of its password.

use vstd::prelude::*;

verus! {

/// What an account is: its username and its credential digest, as text.
pub struct Account {
    pub username: Seq<char>,
    pub credential_hash: Seq<char>,
}

/// An account of the application. `password` holds the credential digest,
/// never the password itself.
#[derive(Debug, Clone, PartialEq, Eq)]
pub struct User {
    pub username: String,
    pub password: String,
}

impl View for User {
    type V = Account;

    open spec fn view(&self) -> Account {
        Account { username: self.username@, credential_hash: self.password@ }
    }
}

} // verus!
