//! The closed error taxonomy: every authentication or storage failure is one
//! of these kinds, and each kind has a fixed boundary status code and
//! response body. Backend-internal detail is carried for server-side logging
//! but never rendered to the caller.

use vstd::prelude::*;
use vstd::string::StringExecFns;
use crate::token::ValidationError;

verus! {

/// A domain failure. The set is closed: nothing else crosses the boundary.
#[derive(Clone, Debug)]
pub enum Error {
    /// Neither a cookie nor a bearer-header credential was presented.
    MissingCredential,
    /// The credential failed verification: bad signature, passed expiry, or
    /// ill-shaped claims.
    InvalidCredential(ValidationError),
    /// The session identifier has no live record: logged out, revoked, or
    /// never logged in.
    SessionExpiredOrRevoked,
    /// The session store could not be reached; carries the transport detail.
    SessionStoreUnavailable(String),
    /// The storage backend failed; carries the backend detail.
    StorageError(String),
    /// An insert collided with an existing record; carries the offending id.
    RecordAlreadyExists(String),
}

impl Error {
    /// The boundary status code of each kind: credential failures are
    /// unauthorized, infrastructure faults are internal, a conflicting
    /// insert is not acceptable.
    pub open spec fn spec_status(self) -> u16 {
        match self {
            Error::MissingCredential => 401,
            Error::InvalidCredential(_) => 401,
            Error::SessionExpiredOrRevoked => 401,
            Error::SessionStoreUnavailable(_) => 500,
            Error::StorageError(_) => 500,
            Error::RecordAlreadyExists(_) => 406,
        }
    }

    pub fn status_code(&self) -> (code: u16)
        ensures
            code == self.spec_status(),
    {
        match self {
            Error::MissingCredential => 401,
            Error::InvalidCredential(_) => 401,
            Error::SessionExpiredOrRevoked => 401,
            Error::SessionStoreUnavailable(_) => 500,
            Error::StorageError(_) => 500,
            Error::RecordAlreadyExists(_) => 406,
        }
    }

    /// The response body of each kind. Unauthorized kinds carry a plain-text
    /// reason; internal kinds render a generic text and never echo the
    /// carried detail; a conflict names the offending id.
    pub open spec fn spec_body(self) -> Seq<char> {
        match self {
            Error::MissingCredential => "You are not logged in, please provide token"@,
            Error::InvalidCredential(v) => v.spec_message(),
            Error::SessionExpiredOrRevoked => "fail: Token is invalid or session has expired"@,
            Error::SessionStoreUnavailable(_) => "internal error"@,
            Error::StorageError(_) => "There was a problem with the database"@,
            Error::RecordAlreadyExists(id) => "Data with "@ + id@ + " already registered"@,
        }
    }

    pub fn response_body(&self) -> (body: String)
        ensures
            body@ == self.spec_body(),
    {
        match self {
            Error::MissingCredential => "You are not logged in, please provide token".to_owned(),
            Error::InvalidCredential(v) => v.message(),
            Error::SessionExpiredOrRevoked => "fail: Token is invalid or session has expired"
                .to_owned(),
            Error::SessionStoreUnavailable(_) => "internal error".to_owned(),
            Error::StorageError(_) => "There was a problem with the database".to_owned(),
            Error::RecordAlreadyExists(id) => "Data with ".to_owned().concat(id.as_str()).concat(
                " already registered",
            ),
        }
    }
}

} // verus!
