//! The authenticated-request gate: credential extraction, verification, and
//! session confirmation, as one linear pass. Each stage is a pure step
//! function; the caller performs the outside work (token decoding, the
//! session-store read) between steps and hands the outcome back. A step is
//! terminal unless it asks for more outside work, so a rejected request
//! never reaches the session store or the handler.

use vstd::prelude::*;
use vstd::string::StrSliceExecFns;
use crate::errors::Error;
use crate::session::{SessionId, parse_session_id, parsed_uuid};
use crate::token::{Claims, ValidationError, spec_verify, verify};

verus! {

/// The verified identity attached to the request context after a successful
/// gate pass: the subject and the session it rode in on.
#[derive(Clone, Debug)]
pub struct JWTAuthMiddleware {
    pub user_id: String,
    pub access_token_uuid: SessionId,
}

/// The pipeline's next move. `NeedVerify` and `NeedLookup` ask the caller for
/// outside work; `Granted` and `Rejected` are terminal.
#[derive(Clone, Debug)]
pub enum GateStep {
    /// Hand this credential to the token decoder.
    NeedVerify(String),
    /// Resolve this session identifier in the session store.
    NeedLookup(SessionId),
    /// The pass succeeded; attach this identity to the request.
    Granted(JWTAuthMiddleware),
    /// The pass failed; answer with this error.
    Rejected(Error),
}

/// The token carried by an `Authorization` header: the text after an exact,
/// case-sensitive `Bearer ` prefix.
pub open spec fn spec_bearer_token(h: Seq<char>) -> Option<Seq<char>> {
    if h.len() >= "Bearer "@.len() && h.subrange(0, "Bearer "@.len() as int) == "Bearer "@ {
        Some(h.skip("Bearer "@.len() as int))
    } else {
        None
    }
}

/// The credential a request presents: the cookie takes precedence; otherwise
/// the bearer header; otherwise nothing.
pub open spec fn spec_credential(cookie: Option<String>, header: Option<String>) -> Option<
    Seq<char>,
> {
    match cookie {
        Some(c) => Some(c@),
        None => match header {
            Some(h) => spec_bearer_token(h@),
            None => None,
        },
    }
}

/// Stage one: read the credential off the request. The cookie field is
/// checked first; failing that, the `Authorization` header must carry an
/// exact `Bearer ` prefix. A request with neither is rejected as
/// `MissingCredential`; no verification and no session lookup is ever
/// requested for it.
pub fn begin(cookie: Option<String>, header: Option<String>) -> (step: GateStep)
    ensures
        match spec_credential(cookie, header) {
            Some(t) => step matches GateStep::NeedVerify(tok) && tok@ == t,
            None => step == GateStep::Rejected(Error::MissingCredential),
        },
        !(step is NeedLookup),
        !(step is Granted),
{
    proof {
        reveal_strlit("Bearer ");
    }
    match cookie {
        Some(c) => GateStep::NeedVerify(c),
        None => match header {
            Some(h) => {
                let hs = h.as_str();
                if crate::text::str_has_prefix(hs, "Bearer ") {
                    let n = hs.unicode_len();
                    let tok = hs.substring_char(7, n).to_owned();
                    proof {
                        assert(tok@ =~= hs@.skip("Bearer "@.len() as int));
                    }
                    GateStep::NeedVerify(tok)
                } else {
                    GateStep::Rejected(Error::MissingCredential)
                }
            },
            None => GateStep::Rejected(Error::MissingCredential),
        },
    }
}

/// What stage two decides, given the decoder's outcome and the clock: a
/// refused or expired or ill-shaped credential is rejected as
/// `InvalidCredential`; a session identifier that is no UUID likewise; only
/// verified claims with a well-formed identifier ask for a session lookup.
pub open spec fn spec_after_verify(decoded: Result<Claims, String>, now: u64) -> GateStep {
    match spec_verify(decoded, now) {
        Result::Err(e) => GateStep::Rejected(Error::InvalidCredential(e)),
        Result::Ok(c) => match parsed_uuid(c.session_id@) {
            Option::None => GateStep::Rejected(Error::InvalidCredential(ValidationError::Malformed)),
            Option::Some(v) => GateStep::NeedLookup((SessionId { value: v })),
        },
    }
}

/// Stage two: judge the decoder's outcome against the clock and parse the
/// claimed session identifier.
pub fn on_verified(decoded: Result<Claims, String>, now: u64) -> (step: GateStep)
    ensures
        step == spec_after_verify(decoded, now),
{
    match verify(decoded, now) {
        Result::Err(e) => GateStep::Rejected(Error::InvalidCredential(e)),
        Result::Ok(c) => match parse_session_id(c.session_id.as_str()) {
            None => GateStep::Rejected(Error::InvalidCredential(ValidationError::Malformed)),
            Some(sid) => GateStep::NeedLookup(sid),
        },
    }
}

/// What stage three decides from the session store's answer: a subject means
/// the pass succeeds with exactly that subject and session; a miss is
/// `SessionExpiredOrRevoked`; a transport fault is `SessionStoreUnavailable`.
pub open spec fn spec_after_lookup(sid: SessionId, lookup: Result<Option<String>, String>) -> GateStep {
    match lookup {
        Result::Ok(Option::Some(uid)) => GateStep::Granted(
            (JWTAuthMiddleware { user_id: uid, access_token_uuid: sid }),
        ),
        Result::Ok(Option::None) => GateStep::Rejected(Error::SessionExpiredOrRevoked),
        Result::Err(m) => GateStep::Rejected(Error::SessionStoreUnavailable(m)),
    }
}

/// Stage three: confirm the session against the store's answer. A miss and a
/// transport fault are distinct outcomes: a miss is an ordinary "not logged
/// in", a fault is an infrastructure error.
pub fn on_session(sid: SessionId, lookup: Result<Option<String>, String>) -> (step: GateStep)
    ensures
        step == spec_after_lookup(sid, lookup),
{
    match lookup {
        Result::Ok(Option::Some(uid)) => GateStep::Granted(
            JWTAuthMiddleware { user_id: uid, access_token_uuid: sid },
        ),
        Result::Ok(Option::None) => GateStep::Rejected(Error::SessionExpiredOrRevoked),
        Result::Err(m) => GateStep::Rejected(Error::SessionStoreUnavailable(m)),
    }
}

/// A request lacking both the cookie and the header credential — no cookie,
/// and no header carrying a `Bearer ` token — presents no credential at all,
/// so `begin` turns it away as `MissingCredential` without ever requesting a
/// verification or a session lookup.
pub proof fn lemma_missing_credential_rejected(cookie: Option<String>, header: Option<String>)
    requires
        cookie is None,
        header matches Some(h) ==> spec_bearer_token(h@) is None,
    ensures
        spec_credential(cookie, header) is None,
{
}

/// A credential whose signature verified but whose expiry has passed is
/// rejected as `InvalidCredential`; no session lookup is ever requested
/// for it.
pub proof fn lemma_expired_credential_rejected(decoded: Result<Claims, String>, now: u64)
    requires
        decoded matches Result::Ok(c) && crate::token::claims_well_formed(c) && c.expires_at
            <= now,
    ensures
        spec_after_verify(decoded, now) == GateStep::Rejected(
            Error::InvalidCredential(ValidationError::Expired),
        ),
        !(spec_after_verify(decoded, now) is NeedLookup),
{
}

/// A session identifier with no matching record is rejected as
/// `SessionExpiredOrRevoked`; no identity is granted, so the handler never
/// runs for it.
pub proof fn lemma_unknown_session_rejected(sid: SessionId, lookup: Result<Option<String>, String>)
    requires
        lookup == Result::<Option<String>, String>::Ok(Option::<String>::None),
    ensures
        spec_after_lookup(sid, lookup) == GateStep::Rejected(Error::SessionExpiredOrRevoked),
        !(spec_after_lookup(sid, lookup) is Granted),
{
}

/// An identity is granted exactly when the session store resolved the
/// identifier to a subject, and it carries that subject and that session
/// identifier: no identity exists without a successful session lookup.
pub proof fn lemma_identity_needs_session_record(
    sid: SessionId,
    lookup: Result<Option<String>, String>,
)
    ensures
        (spec_after_lookup(sid, lookup) is Granted) <==> (lookup matches Result::Ok(
            Option::Some(_),
        )),
        spec_after_lookup(sid, lookup) matches GateStep::Granted(who) ==> (lookup
            matches Result::Ok(Option::Some(uid)) && who.user_id == uid && who.access_token_uuid
            == sid),
{
}

} // verus!
