//! Credential management for a terminal quiz application: a password policy,
//! a credential hasher, an account store and the account operations built on
//! them, with what these operations guarantee from one call to the next, and
//! the dialogue that collects an entry at the terminal.

pub mod account;
pub mod hasher;
pub mod laws;
pub mod manager;
pub mod policy;
pub mod prompt;
pub mod store;

pub use account::{Account, User};
pub use hasher::{hash, verify, HashingFailure, HASH_COST};
pub use manager::{ChangeError, RegistrationError};
pub use policy::{policy_violations, unmet_requirements, PolicyViolation, MIN_PASSWORD_LENGTH};
pub use store::{AccountStore, StoreError};
