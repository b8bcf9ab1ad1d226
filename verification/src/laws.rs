//! What the account operations guarantee from one call to the next, stated
//! over the accounts that a store holds.

use crate::account::{Account, User};
use crate::hasher::digest_matches;
use crate::manager::{authenticates, password_change, registration, ChangeError, RegistrationError};
use crate::policy::is_acceptable;
use crate::store::{distinct_usernames, has_account, lemma_at_most_one_account, occurrences};
use vstd::prelude::*;

verus! {

/// A registration either stores exactly one new account, under a username
/// that is not empty and was not taken, with a digest made from a password
/// that satisfies the policy, or it fails and leaves the store as it was. The
/// usernames stay distinct either way.
pub proof fn lemma_registration_is_all_or_nothing(
    before: Seq<Account>,
    available: bool,
    username: Seq<char>,
    password: Seq<char>,
    outcome: Result<User, RegistrationError>,
    after: Seq<Account>,
)
    requires
        distinct_usernames(before),
        registration(before, available, username, password, outcome, after),
    ensures
        distinct_usernames(after),
        outcome is Err ==> after == before,
        outcome matches Ok(user) ==> {
            &&& after == before.push(user@)
            &&& user@.username == username
            &&& username.len() > 0
            &&& !has_account(before, username)
            &&& is_acceptable(password)
            &&& digest_matches(password, user@.credential_hash)
        },
{
}

/// Registering a username that was registered before is refused with
/// `UsernameTaken`, whatever the password, and changes nothing: the store
/// holds exactly one account of that username.
pub proof fn lemma_second_registration_is_refused(
    before: Seq<Account>,
    available: bool,
    username: Seq<char>,
    first_password: Seq<char>,
    first: Result<User, RegistrationError>,
    between: Seq<Account>,
    second_password: Seq<char>,
    second: Result<User, RegistrationError>,
    after: Seq<Account>,
)
    requires
        distinct_usernames(before),
        registration(before, available, username, first_password, first, between),
        first is Ok,
        registration(between, available, username, second_password, second, after),
    ensures
        second == Err::<User, RegistrationError>(RegistrationError::UsernameTaken),
        after == between,
        occurrences(after, username) == 1,
{
    lemma_registration_is_all_or_nothing(before, available, username, first_password, first, between);
    lemma_at_most_one_account(between, username);
}

/// An account that was just registered authenticates with the password it
/// was registered with.
pub proof fn lemma_registered_account_authenticates(
    before: Seq<Account>,
    available: bool,
    username: Seq<char>,
    password: Seq<char>,
    outcome: Result<User, RegistrationError>,
    after: Seq<Account>,
)
    requires
        registration(before, available, username, password, outcome, after),
        outcome is Ok,
    ensures
        authenticates(after, username, password),
{
    assert(after[after.len() - 1].username == username);
}

/// Nobody authenticates under a username that the store does not hold, and
/// nobody under a stored username with a password that its digest does not
/// verify.
pub proof fn lemma_unknown_user_and_wrong_password_are_refused(
    accounts: Seq<Account>,
    username: Seq<char>,
    password: Seq<char>,
)
    requires
        !has_account(accounts, username) || forall|i: int|
            0 <= i < accounts.len() && (#[trigger] accounts[i]).username == username
                ==> !digest_matches(password, accounts[i].credential_hash),
    ensures
        !authenticates(accounts, username, password),
{
}

/// A password change either replaces the digest of the one account, given
/// the right current password, by a digest made from a new password that
/// satisfies the policy, or it fails and leaves account and store as they
/// were. No account comes or goes, and every username stays where it was.
pub proof fn lemma_password_change_is_all_or_nothing(
    account: Account,
    before: Seq<Account>,
    available: bool,
    current: Seq<char>,
    candidate: Seq<char>,
    outcome: Result<(), ChangeError>,
    changed: Account,
    after: Seq<Account>,
)
    requires
        distinct_usernames(before),
        password_change(account, before, available, current, candidate, outcome, changed, after),
    ensures
        distinct_usernames(after),
        after.len() == before.len(),
        forall|i: int| 0 <= i < after.len() ==> (#[trigger] after[i]).username == before[i].username,
        forall|i: int|
            0 <= i < after.len() && before[i].username != account.username ==> (#[trigger] after[i])
                == before[i],
        outcome is Err ==> changed == account && after == before,
        outcome is Ok ==> {
            &&& changed.username == account.username
            &&& digest_matches(current, account.credential_hash)
            &&& is_acceptable(candidate)
            &&& digest_matches(candidate, changed.credential_hash)
            &&& has_account(after, account.username)
        },
{
    if outcome is Ok {
        let at = choose|i: int|
            0 <= i < before.len() && (#[trigger] before[i]).username == account.username;
        assert(after[at].username == account.username);
    }
}

/// A password change with the right current password and a new password
/// that satisfies the policy succeeds on a store that can be reached and
/// holds the account, unless the hasher fails.
pub proof fn lemma_password_change_succeeds(
    account: Account,
    before: Seq<Account>,
    available: bool,
    current: Seq<char>,
    candidate: Seq<char>,
    outcome: Result<(), ChangeError>,
    changed: Account,
    after: Seq<Account>,
)
    requires
        password_change(account, before, available, current, candidate, outcome, changed, after),
        digest_matches(current, account.credential_hash),
        is_acceptable(candidate),
        available,
        has_account(before, account.username),
    ensures
        outcome is Ok || outcome == Err::<(), ChangeError>(ChangeError::HashingFailure),
{
}

/// After a password change that succeeded, the account authenticates with
/// the new password, and with any other password exactly when the new digest
/// verifies it: the old password is refused unless the new digest verifies it
/// too. Every other account authenticates as before.
pub proof fn lemma_changed_password_authenticates(
    account: Account,
    before: Seq<Account>,
    available: bool,
    current: Seq<char>,
    candidate: Seq<char>,
    outcome: Result<(), ChangeError>,
    changed: Account,
    after: Seq<Account>,
    other_username: Seq<char>,
    other_password: Seq<char>,
)
    requires
        distinct_usernames(before),
        password_change(account, before, available, current, candidate, outcome, changed, after),
        outcome is Ok,
    ensures
        distinct_usernames(after),
        authenticates(after, account.username, candidate),
        authenticates(after, account.username, other_password) <==> digest_matches(
            other_password,
            changed.credential_hash,
        ),
        !digest_matches(current, changed.credential_hash) ==> !authenticates(
            after,
            account.username,
            current,
        ),
        other_username != account.username ==> (authenticates(after, other_username, other_password)
            <==> authenticates(before, other_username, other_password)),
{
    let name = account.username;
    let at = choose|i: int| 0 <= i < before.len() && (#[trigger] before[i]).username == name;
    assert(after[at].username == name);
    if other_username != name && authenticates(before, other_username, other_password) {
        let i = choose|i: int|
            0 <= i < before.len() && (#[trigger] before[i]).username == other_username
                && digest_matches(other_password, before[i].credential_hash);
        assert(after[i] == before[i]);
    }
}

} // verus!
