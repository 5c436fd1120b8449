//! Users and their credentials.
use vstd::prelude::*;

use crate::error::{store_error, store_error_spec, DatastoreError, StoreFailure};
use crate::model::{NewUser, User};

verus! {

/// What `bcrypt::verify` gives for a password and a digest: whether they
/// match, or `None` when the digest is malformed.
pub uninterp spec fn bcrypt_verdict(password: Seq<char>, digest: Seq<char>) -> Option<bool>;

/// Relies on `bcrypt::hash` at `bcrypt::DEFAULT_COST`: it fails only when the
/// system's randomness cannot be read for the salt, and the digest it gives
/// verifies against the same password under `bcrypt::verify`.
#[verifier::external_body]
fn bcrypt_hash(password: &str) -> (r: Option<String>)
    ensures
        r matches Some(digest) ==> bcrypt_verdict(password@, digest@) == Some(true),
{
    bcrypt::hash(password, bcrypt::DEFAULT_COST).ok()
}

/// Relies on `bcrypt::verify`: whether the password matches the digest, or an
/// error for a malformed digest; the outcome depends on the two alone.
#[verifier::external_body]
fn bcrypt_verify(password: &str, digest: &str) -> (r: Option<bool>)
    ensures
        r == bcrypt_verdict(password@, digest@),
{
    bcrypt::verify(password, digest).ok()
}

/// The user to store for a registration, given the digest that hashing its
/// password gave, or `None` when hashing failed.
pub fn registration_record(username: &str, email: &str, digest: Option<String>) -> (r: Result<
    NewUser,
    DatastoreError,
>)
    ensures
        digest is Some <==> r is Ok,
        r matches Ok(u) ==> u.username@ == username@ && u.email@ == email@ && Some(u.password)
            == digest,
        r matches Err(e) ==> e == DatastoreError::CredentialHashing,
{
    match digest {
        Some(password) => Ok(
            NewUser { username: String::from_str(username), email: String::from_str(email), password },
        ),
        None => Err(DatastoreError::CredentialHashing),
    }
}

/// The user to store for a registration: the password is replaced by a
/// salted digest that verifies against it.
pub fn new_user(username: &str, email: &str, password: &str) -> (r: Result<NewUser, DatastoreError>)
    ensures
        r matches Ok(u) ==> u.username@ == username@ && u.email@ == email@ && bcrypt_verdict(
            password@,
            u.password@,
        ) == Some(true),
        r matches Err(e) ==> e == DatastoreError::CredentialHashing,
{
    registration_record(username, email, bcrypt_hash(password))
}

/// The outcome of checking a password, given what verifying it against the
/// stored digest gave: a malformed digest is an error, never a mismatch.
pub open spec fn verdict_outcome(verdict: Option<bool>) -> Result<bool, DatastoreError> {
    match verdict {
        Some(b) => Ok(b),
        None => Err(DatastoreError::CorruptCredential),
    }
}

/// Turns the verdict of a password check into its outcome.
pub fn credential_outcome(verdict: Option<bool>) -> (r: Result<bool, DatastoreError>)
    ensures
        r == verdict_outcome(verdict),
{
    match verdict {
        Some(b) => Ok(b),
        None => Err(DatastoreError::CorruptCredential),
    }
}

/// Checks a password for the user found under a username, if any. An unknown
/// user gives `false`, as a wrong password does, so that the two cannot be
/// told apart.
pub fn check_password(user: &Option<User>, password: &str) -> (r: Result<bool, DatastoreError>)
    ensures
        match user {
            None => r == Ok::<bool, DatastoreError>(false),
            Some(u) => r == verdict_outcome(bcrypt_verdict(password@, u.password@)),
        },
{
    match user {
        None => Ok(false),
        Some(u) => credential_outcome(bcrypt_verify(password, u.password.as_str())),
    }
}

/// The user that a lookup by username found: the first row, or not found.
pub fn first_user(rows: Vec<User>) -> (r: Result<User, DatastoreError>)
    ensures
        rows@.len() == 0 ==> r == Err::<User, DatastoreError>(DatastoreError::NotFound),
        rows@.len() > 0 ==> r == Ok::<User, DatastoreError>(rows@[0]),
{
    let mut rows = rows;
    if rows.len() == 0 {
        Err(DatastoreError::NotFound)
    } else {
        Ok(rows.swap_remove(0))
    }
}

/// The error for a failed registration: a constraint violation means the
/// username or e-mail is taken.
pub fn registration_error(username: &str, f: StoreFailure) -> (r: DatastoreError)
    ensures
        f is Constraint ==> (r matches DatastoreError::UserAlreadyExists { username: u } && u@
            == username@),
        !(f is Constraint) ==> r == store_error_spec(f),
{
    match f {
        StoreFailure::Constraint(_) => DatastoreError::UserAlreadyExists {
            username: String::from_str(username),
        },
        _ => store_error(f),
    }
}

} // verus!
