//! Session identifiers. A session is keyed by the 128-bit value of a UUID;
//! the claimed identifier arrives as text and must parse before the session
//! store is consulted.

use vstd::prelude::*;

verus! {

/// A session identifier: the 128-bit value of the UUID that keys the
/// session record.
#[derive(Clone, Copy, Debug, PartialEq, Eq, Structural, Hash)]
pub struct SessionId {
    pub value: u128,
}

/// The 128-bit value that the UUID parser assigns to a string, if the string
/// is a well-formed UUID in any of its accepted textual forms.
pub uninterp spec fn parsed_uuid(s: Seq<char>) -> Option<u128>;

/// Relies on uuid::Uuid::parse_str (and Uuid::as_u128): whether a string
/// parses as a UUID, and to which 128-bit value, is a function of its
/// characters alone.
#[verifier::external_body]
fn parse_uuid(s: &str) -> (r: Option<u128>)
    ensures
        r == parsed_uuid(s@),
{
    match uuid::Uuid::parse_str(s) {
        Ok(u) => Some(u.as_u128()),
        Err(_) => None,
    }
}

/// Parse a claimed session identifier; `None` when the text is not a
/// well-formed UUID.
pub fn parse_session_id(s: &str) -> (r: Option<SessionId>)
    ensures
        (r is Some) <==> (parsed_uuid(s@) is Some),
        r matches Some(sid) ==> (parsed_uuid(s@) matches Some(v) && sid.value == v),
{
    match parse_uuid(s) {
        Some(v) => Some(SessionId { value: v }),
        None => None,
    }
}

} // verus!
