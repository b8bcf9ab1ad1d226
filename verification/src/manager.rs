//! The account operations: registration, authentication and password change,
//! over an account store, the password policy and the credential hasher.

use crate::account::{Account, User};
use crate::hasher::{digest_matches, hash, verify, HashingFailure};
use crate::policy::{
    has_digit, has_special, has_uppercase, is_acceptable, policy_violations, violations,
    PolicyViolation, MIN_PASSWORD_LENGTH,
};
use crate::store::{distinct_usernames, has_account, with_credential, AccountStore, StoreError};
use vstd::prelude::*;

verus! {

/// Why a registration was refused or failed.
#[derive(Debug, Clone, PartialEq, Eq)]
pub enum RegistrationError {
    /// The username is empty.
    InvalidUsername,
    /// An account with that username exists already.
    UsernameTaken,
    /// The password leaves these requirements of the policy unmet.
    WeakPassword(Vec<PolicyViolation>),
    /// The hasher could not produce a digest.
    HashingFailure,
    /// The store cannot be reached.
    StoreUnavailable,
}

/// Why a password change was refused or failed.
#[derive(Debug, Clone, PartialEq, Eq)]
pub enum ChangeError {
    /// The current password is not the account's password.
    PasswordMismatch,
    /// The new password leaves these requirements of the policy unmet.
    WeakPassword(Vec<PolicyViolation>),
    /// The hasher could not produce a digest.
    HashingFailure,
    /// The store holds no account of that username.
    NotFound,
    /// The store cannot be reached.
    StoreUnavailable,
}

/// What a failure of the store means for a registration: a username that the
/// store already holds is taken; anything else is the store's own failure.
pub open spec fn registration_error_of(error: StoreError) -> RegistrationError {
    match error {
        StoreError::DuplicateUsername => RegistrationError::UsernameTaken,
        _ => RegistrationError::StoreUnavailable,
    }
}

/// What a failure of the store means for a password change: an account that
/// the store does not hold is not found; anything else is the store's own
/// failure.
pub open spec fn change_error_of(error: StoreError) -> ChangeError {
    match error {
        StoreError::NotFound => ChangeError::NotFound,
        _ => ChangeError::StoreUnavailable,
    }
}

impl RegistrationError {
    /// The registration error that stands for a failure of the store.
    pub fn from_store(error: StoreError) -> (failure: RegistrationError)
        ensures
            failure == registration_error_of(error),
    {
        match error {
            StoreError::DuplicateUsername => RegistrationError::UsernameTaken,
            _ => RegistrationError::StoreUnavailable,
        }
    }
}

impl ChangeError {
    /// The change error that stands for a failure of the store.
    pub fn from_store(error: StoreError) -> (failure: ChangeError)
        ensures
            failure == change_error_of(error),
    {
        match error {
            StoreError::NotFound => ChangeError::NotFound,
            _ => ChangeError::StoreUnavailable,
        }
    }
}

/// Why `username` cannot be registered in a store that shows `accounts`, if
/// anything stands against it.
pub open spec fn username_refusal(accounts: Seq<Account>, available: bool, username: Seq<char>) -> Option<
    RegistrationError,
> {
    if username.len() == 0 {
        Some(RegistrationError::InvalidUsername)
    } else if available && has_account(accounts, username) {
        Some(RegistrationError::UsernameTaken)
    } else {
        None
    }
}

/// What enrolling `username` with the hasher's answer `digest` does to a store
/// that held `before`: the outcome and the accounts held afterwards.
pub open spec fn enrollment(
    before: Seq<Account>,
    available: bool,
    username: Seq<char>,
    digest: Result<String, HashingFailure>,
    outcome: Result<User, RegistrationError>,
    after: Seq<Account>,
) -> bool {
    match digest {
        Err(_) => outcome == Err::<User, RegistrationError>(RegistrationError::HashingFailure)
            && after == before,
        Ok(d) => if !available {
            outcome == Err::<User, RegistrationError>(RegistrationError::StoreUnavailable) && after
                == before
        } else if has_account(before, username) {
            outcome == Err::<User, RegistrationError>(RegistrationError::UsernameTaken) && after
                == before
        } else {
            &&& outcome matches Ok(user)
            &&& user@ == (Account { username: username, credential_hash: d@ })
            &&& after == before.push(user@)
        },
    }
}

/// What registering `username` with `password` does to a store that held
/// `before`. Each refusal leaves the store as it was, and comes exactly on the
/// inputs named here; past them the hasher and the store decide between
/// success and their own failures.
pub open spec fn registration(
    before: Seq<Account>,
    available: bool,
    username: Seq<char>,
    password: Seq<char>,
    outcome: Result<User, RegistrationError>,
    after: Seq<Account>,
) -> bool {
    match username_refusal(before, available, username) {
        Some(refusal) => outcome == Err::<User, RegistrationError>(refusal) && after == before,
        None => if !is_acceptable(password) {
            &&& outcome matches Err(RegistrationError::WeakPassword(unmet))
            &&& unmet@ == violations(password)
            &&& after == before
        } else {
            match outcome {
                Ok(user) => {
                    &&& available
                    &&& user@.username == username
                    &&& digest_matches(password, user@.credential_hash)
                    &&& after == before.push(user@)
                },
                Err(error) => {
                    &&& after == before
                    &&& (error == RegistrationError::HashingFailure || (error
                        == RegistrationError::StoreUnavailable && !available))
                },
            }
        },
    }
}

/// Some account of `accounts` is named `username` and has a digest that
/// verifies `password`.
pub open spec fn authenticates(accounts: Seq<Account>, username: Seq<char>, password: Seq<char>) -> bool {
    exists|i: int|
        0 <= i < accounts.len() && (#[trigger] accounts[i]).username == username && digest_matches(
            password,
            accounts[i].credential_hash,
        )
}

/// Why a password change is refused before anything is hashed, given whether
/// the current password was verified and which requirements the new one
/// leaves unmet; `None` where the change may go on.
pub open spec fn change_refusal_of(verified: bool, unmet: Vec<PolicyViolation>) -> Option<
    ChangeError,
> {
    if !verified {
        Some(ChangeError::PasswordMismatch)
    } else if unmet@.len() > 0 {
        Some(ChangeError::WeakPassword(unmet))
    } else {
        None
    }
}

/// What installing the hasher's answer `digest` as the credential of
/// `account` does, in a store that held `before`: the outcome, the account as
/// the caller holds it afterwards, and the accounts stored afterwards.
pub open spec fn installation(
    account: Account,
    before: Seq<Account>,
    available: bool,
    digest: Result<String, HashingFailure>,
    outcome: Result<(), ChangeError>,
    changed: Account,
    after: Seq<Account>,
) -> bool {
    match digest {
        Err(_) => outcome == Err::<(), ChangeError>(ChangeError::HashingFailure) && changed
            == account && after == before,
        Ok(d) => if !available {
            outcome == Err::<(), ChangeError>(ChangeError::StoreUnavailable) && changed == account
                && after == before
        } else if !has_account(before, account.username) {
            outcome == Err::<(), ChangeError>(ChangeError::NotFound) && changed == account && after
                == before
        } else {
            &&& outcome == Ok::<(), ChangeError>(())
            &&& changed == (Account { username: account.username, credential_hash: d@ })
            &&& after == with_credential(before, account.username, d@)
        },
    }
}

/// What changing the password of `account` from `current` to `candidate`
/// does, in a store that held `before`. Each refusal leaves account and store
/// as they were, and comes exactly on the inputs named here; past them the
/// hasher and the store decide between success and their own failures.
pub open spec fn password_change(
    account: Account,
    before: Seq<Account>,
    available: bool,
    current: Seq<char>,
    candidate: Seq<char>,
    outcome: Result<(), ChangeError>,
    changed: Account,
    after: Seq<Account>,
) -> bool {
    if !digest_matches(current, account.credential_hash) {
        outcome == Err::<(), ChangeError>(ChangeError::PasswordMismatch) && changed == account
            && after == before
    } else if !is_acceptable(candidate) {
        &&& outcome matches Err(ChangeError::WeakPassword(unmet))
        &&& unmet@ == violations(candidate)
        &&& changed == account
        &&& after == before
    } else {
        match outcome {
            Ok(_) => {
                &&& available
                &&& has_account(before, account.username)
                &&& changed.username == account.username
                &&& digest_matches(candidate, changed.credential_hash)
                &&& after == with_credential(before, account.username, changed.credential_hash)
            },
            Err(error) => {
                &&& changed == account
                &&& after == before
                &&& (error == ChangeError::HashingFailure || (error == ChangeError::StoreUnavailable
                    && !available) || (error == ChangeError::NotFound && available && !has_account(
                    before,
                    account.username,
                )))
            },
        }
    }
}

impl User {
    /// Whether `password` satisfies the password policy: at least ten
    /// characters, among them an uppercase letter, a decimal digit and a
    /// special character. A shorter password is never valid, whatever it
    /// holds.
    pub fn is_valid_password(password: &str) -> (ok: bool)
        ensures
            ok == is_acceptable(password@),
            password@.len() < MIN_PASSWORD_LENGTH ==> !ok,
            password@.len() >= MIN_PASSWORD_LENGTH && has_uppercase(password@) && has_digit(
                password@,
            ) && has_special(password@) ==> ok,
    {
        policy_violations(password).len() == 0
    }

    /// Accepts the candidate password if there is one and it satisfies the
    /// policy; `None` tells the caller to ask for a password, again if need be.
    pub fn create_password(password: Option<String>) -> (accepted: Option<String>)
        ensures
            accepted is Some <==> (password matches Some(candidate) && is_acceptable(candidate@)),
            accepted is Some ==> accepted == password,
    {
        match password {
            Some(candidate) => {
                if Self::is_valid_password(candidate.as_str()) {
                    Some(candidate)
                } else {
                    None
                }
            },
            None => None,
        }
    }

    /// Accepts the candidate username unless it is empty or the store shows an
    /// account of that name.
    pub fn create_username(username: &str, store: &AccountStore) -> (accepted: Result<
        String,
        RegistrationError,
    >)
        ensures
            match username_refusal(store.accounts(), store.is_available(), username@) {
                Some(refusal) => accepted == Err::<String, RegistrationError>(refusal),
                None => accepted matches Ok(name) && name@ == username@,
            },
    {
        if username.is_empty() {
            Err(RegistrationError::InvalidUsername)
        } else if store.contains(username) {
            Err(RegistrationError::UsernameTaken)
        } else {
            Ok(username.to_owned())
        }
    }

    /// Stores the account of `username` with the digest that the hasher gave,
    /// and hands the account out. The store has the last word on uniqueness.
    pub fn enroll(
        username: String,
        digest: Result<String, HashingFailure>,
        store: &mut AccountStore,
    ) -> (outcome: Result<User, RegistrationError>)
        ensures
            final(store).is_available() == old(store).is_available(),
            distinct_usernames(final(store).accounts()),
            enrollment(
                old(store).accounts(),
                old(store).is_available(),
                username@,
                digest,
                outcome,
                final(store).accounts(),
            ),
    {
        match digest {
            Err(_) => {
                proof {
                    use_type_invariant(&*store);
                }
                Err(RegistrationError::HashingFailure)
            },
            Ok(d) => match store.insert(username.as_str(), d.as_str()) {
                Ok(()) => Ok(User { username: username, password: d }),
                Err(error) => Err(RegistrationError::from_store(error)),
            },
        }
    }

    /// Registers a new account. The username is checked first, then the
    /// password against the policy; only then is the password hashed and the
    /// account stored. The first step that fails ends the registration with
    /// its own error and leaves the store as it was.
    pub fn new_from_str(username: &str, password: &str, store: &mut AccountStore) -> (outcome:
        Result<User, RegistrationError>)
        ensures
            final(store).is_available() == old(store).is_available(),
            distinct_usernames(final(store).accounts()),
            registration(
                old(store).accounts(),
                old(store).is_available(),
                username@,
                password@,
                outcome,
                final(store).accounts(),
            ),
    {
        let name = match Self::create_username(username, store) {
            Ok(name) => name,
            Err(refusal) => {
                proof {
                    use_type_invariant(&*store);
                }
                return Err(refusal);
            },
        };
        let unmet = policy_violations(password);
        if unmet.len() > 0 {
            proof {
                use_type_invariant(&*store);
            }
            return Err(RegistrationError::WeakPassword(unmet));
        }
        let digest = hash(password);
        Self::enroll(name, digest, store)
    }

    /// Hands the account out only where the password was verified against its
    /// digest.
    pub fn grant(account: User, verified: bool) -> (granted: Option<User>)
        ensures
            granted == if verified {
                Some(account)
            } else {
                None
            },
    {
        if verified {
            Some(account)
        } else {
            None
        }
    }

    /// Authenticates: the stored account of `username`, if `password` is
    /// verified against its digest. An unknown username and a wrong password
    /// give the same answer.
    pub fn get_user_from_str(username: &str, password: &str, store: &AccountStore) -> (found:
        Option<User>)
        ensures
            found is Some <==> store.is_available() && authenticates(
                store.accounts(),
                username@,
                password@,
            ),
            found matches Some(user) ==> user@.username == username@ && store.accounts().contains(
                user@,
            ) && digest_matches(password@, user@.credential_hash),
            !has_account(store.accounts(), username@) ==> found is None,
    {
        match store.fetch(username) {
            Some(account) => {
                let verified = verify(password, account.password.as_str());
                Self::grant(account, verified)
            },
            None => None,
        }
    }

    /// Why a password change is refused before anything is hashed: the current
    /// password was not verified, or the new one leaves requirements unmet.
    pub fn change_refusal(verified: bool, unmet: Vec<PolicyViolation>) -> (refusal: Option<
        ChangeError,
    >)
        ensures
            refusal == change_refusal_of(verified, unmet),
    {
        if !verified {
            Some(ChangeError::PasswordMismatch)
        } else if unmet.len() > 0 {
            Some(ChangeError::WeakPassword(unmet))
        } else {
            None
        }
    }

    /// Replaces the account's digest by the one that the hasher gave, in the
    /// store first and then in the account itself. The username stays.
    pub fn install(&mut self, digest: Result<String, HashingFailure>, store: &mut AccountStore) -> (outcome:
        Result<(), ChangeError>)
        ensures
            final(store).is_available() == old(store).is_available(),
            distinct_usernames(final(store).accounts()),
            installation(
                old(self)@,
                old(store).accounts(),
                old(store).is_available(),
                digest,
                outcome,
                final(self)@,
                final(store).accounts(),
            ),
    {
        match digest {
            Err(_) => {
                proof {
                    use_type_invariant(&*store);
                }
                Err(ChangeError::HashingFailure)
            },
            Ok(d) => match store.update_credential(self.username.as_str(), d.as_str()) {
                Ok(()) => {
                    self.password = d;
                    Ok(())
                },
                Err(error) => Err(ChangeError::from_store(error)),
            },
        }
    }

    /// Changes the account's password: verifies the current password against
    /// the account's digest, checks the new one against the policy, hashes it
    /// and replaces the digest in the store and in the account. The first
    /// step that fails ends the change with its own error and leaves account
    /// and store as they were.
    pub fn change_password(&mut self, current: &str, new: &str, store: &mut AccountStore) -> (outcome:
        Result<(), ChangeError>)
        ensures
            final(store).is_available() == old(store).is_available(),
            distinct_usernames(final(store).accounts()),
            password_change(
                old(self)@,
                old(store).accounts(),
                old(store).is_available(),
                current@,
                new@,
                outcome,
                final(self)@,
                final(store).accounts(),
            ),
    {
        let verified = verify(current, self.password.as_str());
        let unmet = policy_violations(new);
        match Self::change_refusal(verified, unmet) {
            Some(refusal) => {
                proof {
                    use_type_invariant(&*store);
                }
                Err(refusal)
            },
            None => {
                let digest = hash(new);
                self.install(digest, store)
            },
        }
    }
}

} // verus!
