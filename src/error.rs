use vstd::prelude::*;
use vstd::string::*;

verus! {

/// Why an operation of the store failed.
#[derive(Clone, Debug)]
pub enum DatastoreError {
    /// The username (or e-mail) is already taken.
    UserAlreadyExists { username: String },
    /// The caller's input is malformed; the message says how.
    BadRequest(String),
    /// The referenced entity does not exist.
    NotFound,
    /// A stored activity row holds bytes that are not an event batch.
    Decode { row_id: i64 },
    /// A stored password digest is malformed.
    CorruptCredential,
    /// No digest could be made of a new password.
    CredentialHashing,
    /// The relational store failed; the message is the store's.
    Rusqlite(String),
    /// No connection could be had from the pool; the message is the pool's.
    R2d2(String),
}

/// `r` is a bad-request failure with message `msg`.
pub open spec fn is_bad_request<T>(r: Result<T, DatastoreError>, msg: Seq<char>) -> bool {
    match r {
        Err(DatastoreError::BadRequest(m)) => m@ == msg,
        _ => false,
    }
}

/// The HTTP status that a web layer answers each kind of failure with.
pub open spec fn status_of(e: DatastoreError) -> u16 {
    match e {
        DatastoreError::UserAlreadyExists { .. } => 409,
        DatastoreError::BadRequest(_) => 400,
        DatastoreError::NotFound => 404,
        _ => 500,
    }
}

/// The human-readable text of a failure.
pub open spec fn message_of(e: DatastoreError) -> Seq<char> {
    match e {
        DatastoreError::UserAlreadyExists { username } => "user `"@ + username@
            + "` already exists"@,
        DatastoreError::BadRequest(m) => "bad request: "@ + m@,
        DatastoreError::NotFound => "not found"@,
        DatastoreError::Decode { .. } => "stored activity could not be decoded"@,
        DatastoreError::CorruptCredential => "stored credential is malformed"@,
        DatastoreError::CredentialHashing => "password could not be hashed"@,
        DatastoreError::Rusqlite(m) => "rusqlite error: "@ + m@,
        DatastoreError::R2d2(m) => "r2d2 error: "@ + m@,
    }
}

impl DatastoreError {
    /// The HTTP status for this failure: conflict, bad request, not found,
    /// or an internal error.
    pub fn http_status(&self) -> (r: u16)
        ensures
            r == status_of(*self),
    {
        match self {
            DatastoreError::UserAlreadyExists { .. } => 409,
            DatastoreError::BadRequest(_) => 400,
            DatastoreError::NotFound => 404,
            _ => 500,
        }
    }

    /// The human-readable text of this failure.
    pub fn message(&self) -> (r: String)
        ensures
            r@ == message_of(*self),
    {
        match self {
            DatastoreError::UserAlreadyExists { username } => {
                let mut s = String::from_str("user `");
                s.append(username.as_str());
                s.append("` already exists");
                s
            },
            DatastoreError::BadRequest(m) => String::from_str("bad request: ").concat(m.as_str()),
            DatastoreError::NotFound => String::from_str("not found"),
            DatastoreError::Decode { .. } => String::from_str("stored activity could not be decoded"),
            DatastoreError::CorruptCredential => String::from_str("stored credential is malformed"),
            DatastoreError::CredentialHashing => String::from_str("password could not be hashed"),
            DatastoreError::Rusqlite(m) => String::from_str("rusqlite error: ").concat(m.as_str()),
            DatastoreError::R2d2(m) => String::from_str("r2d2 error: ").concat(m.as_str()),
        }
    }
}

/// How a write to the store failed.
#[derive(Clone, Debug)]
pub enum StoreFailure {
    /// A uniqueness or other constraint of the store was violated.
    Constraint(String),
    /// The store failed otherwise.
    Other(String),
    /// No connection could be had from the pool.
    Pool(String),
}

/// The failure of a write, as an error of the library.
pub open spec fn store_error_spec(f: StoreFailure) -> DatastoreError {
    match f {
        StoreFailure::Constraint(m) => DatastoreError::Rusqlite(m),
        StoreFailure::Other(m) => DatastoreError::Rusqlite(m),
        StoreFailure::Pool(m) => DatastoreError::R2d2(m),
    }
}

/// The error for a failed write.
pub fn store_error(f: StoreFailure) -> (r: DatastoreError)
    ensures
        r == store_error_spec(f),
{
    match f {
        StoreFailure::Constraint(m) => DatastoreError::Rusqlite(m),
        StoreFailure::Other(m) => DatastoreError::Rusqlite(m),
        StoreFailure::Pool(m) => DatastoreError::R2d2(m),
    }
}

} // verus!
