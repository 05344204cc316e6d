//! Token validation: the temporal and structural checks on a credential's
//! decoded claims. Cryptographic decoding itself is the token issuer's
//! concern; its outcome is handed in as a value.

use vstd::prelude::*;
use vstd::string::StringExecFns;

verus! {

/// Decoded payload of a credential: the claimed session identifier and the
/// standard temporal fields. Immutable once produced.
#[derive(Clone, Debug)]
pub struct Claims {
    pub session_id: String,
    pub issued_at: u64,
    pub expires_at: u64,
}

/// Structural well-formedness of the required claim fields.
pub open spec fn claims_well_formed(c: Claims) -> bool {
    c.session_id@.len() > 0 && c.issued_at <= c.expires_at
}

/// Why a credential was refused by the validator.
#[derive(Clone, Debug)]
pub enum ValidationError {
    /// The decoder could not verify the token against the public key;
    /// carries the decoder's message.
    BadSignature(String),
    /// The signature verified but the expiry has passed.
    Expired,
    /// A required claim field is missing or ill-shaped.
    Malformed,
}

impl ValidationError {
    /// The plain-text reason rendered for this refusal.
    pub open spec fn spec_message(self) -> Seq<char> {
        match self {
            ValidationError::BadSignature(m) => "fail: "@ + m@,
            ValidationError::Expired => "fail: Token has expired"@,
            ValidationError::Malformed => "fail: Invalid token"@,
        }
    }

    pub fn message(&self) -> (text: String)
        ensures
            text@ == self.spec_message(),
    {
        match self {
            ValidationError::BadSignature(m) => "fail: ".to_owned().concat(m.as_str()),
            ValidationError::Expired => "fail: Token has expired".to_owned(),
            ValidationError::Malformed => "fail: Invalid token".to_owned(),
        }
    }
}

/// What the validator decides, as a function of the decoder's outcome and the
/// clock: a decoder refusal is passed through, malformed claims are refused,
/// and an expiry at or before `now` is refused even though the signature
/// verified.
pub open spec fn spec_verify(decoded: Result<Claims, String>, now: u64) -> Result<
    Claims,
    ValidationError,
> {
    match decoded {
        Result::Err(m) => Result::Err(ValidationError::BadSignature(m)),
        Result::Ok(c) => if !claims_well_formed(c) {
            Result::Err(ValidationError::Malformed)
        } else if c.expires_at <= now {
            Result::Err(ValidationError::Expired)
        } else {
            Result::Ok(c)
        },
    }
}

/// Check a credential's decoded claims against the clock: signature refusals
/// pass through, ill-shaped claims and passed expiries are refused. Pure in
/// its inputs; `now` is the current time supplied by the caller.
pub fn verify(decoded: Result<Claims, String>, now: u64) -> (r: Result<Claims, ValidationError>)
    ensures
        r == spec_verify(decoded, now),
{
    match decoded {
        Result::Err(m) => Result::Err(ValidationError::BadSignature(m)),
        Result::Ok(c) => {
            if c.session_id.as_str().is_empty() || c.issued_at > c.expires_at {
                Result::Err(ValidationError::Malformed)
            } else if c.expires_at <= now {
                Result::Err(ValidationError::Expired)
            } else {
                Result::Ok(c)
            }
        },
    }
}

} // verus!
