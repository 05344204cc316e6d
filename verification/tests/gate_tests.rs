use auth_gate::errors::Error;
use auth_gate::gate::{begin, on_session, on_verified, GateStep};
use auth_gate::token::{verify, Claims, ValidationError};

const S1: &str = "67e55044-10b1-426f-9247-bb680e5fe0c8";

fn claims(session_id: &str, issued_at: u64, expires_at: u64) -> Claims {
    Claims { session_id: session_id.to_string(), issued_at, expires_at }
}

#[test]
fn missing_credential_rejected() {
    let step = begin(None, None);
    assert!(matches!(step, GateStep::Rejected(Error::MissingCredential)));
}

#[test]
fn header_without_bearer_prefix_rejected() {
    let step = begin(None, Some("Basic dXNlcjpwdw==".to_string()));
    assert!(matches!(step, GateStep::Rejected(Error::MissingCredential)));
}

#[test]
fn bearer_prefix_is_case_sensitive() {
    let step = begin(None, Some("bearer T2".to_string()));
    assert!(matches!(step, GateStep::Rejected(Error::MissingCredential)));
}

#[test]
fn cookie_token_extracted() {
    match begin(Some("T1".to_string()), None) {
        GateStep::NeedVerify(tok) => assert_eq!(tok, "T1"),
        other => panic!("expected NeedVerify, got {:?}", other),
    }
}

#[test]
fn cookie_takes_precedence_over_header() {
    match begin(Some("cookie-token".to_string()), Some("Bearer header-token".to_string())) {
        GateStep::NeedVerify(tok) => assert_eq!(tok, "cookie-token"),
        other => panic!("expected NeedVerify, got {:?}", other),
    }
}

#[test]
fn bearer_header_extracted() {
    match begin(None, Some("Bearer T2".to_string())) {
        GateStep::NeedVerify(tok) => assert_eq!(tok, "T2"),
        other => panic!("expected NeedVerify, got {:?}", other),
    }
}

#[test]
fn bare_bearer_prefix_yields_an_empty_token() {
    match begin(None, Some("Bearer ".to_string())) {
        GateStep::NeedVerify(tok) => assert_eq!(tok, ""),
        other => panic!("expected NeedVerify, got {:?}", other),
    }
}

#[test]
fn validator_accepts_live_claims() {
    let r = verify(Ok(claims(S1, 100, 200)), 150);
    match r {
        Ok(c) => {
            assert_eq!(c.session_id, S1);
            assert_eq!(c.issued_at, 100);
            assert_eq!(c.expires_at, 200);
        },
        Err(e) => panic!("expected Ok, got {:?}", e),
    }
}

#[test]
fn validator_refuses_passed_expiry() {
    let r = verify(Ok(claims(S1, 100, 200)), 200);
    assert!(matches!(r, Err(ValidationError::Expired)));
}

#[test]
fn validator_refuses_empty_session_id() {
    let r = verify(Ok(claims("", 100, 200)), 150);
    assert!(matches!(r, Err(ValidationError::Malformed)));
}

#[test]
fn validator_refuses_inverted_temporal_fields() {
    let r = verify(Ok(claims(S1, 300, 200)), 150);
    assert!(matches!(r, Err(ValidationError::Malformed)));
}

#[test]
fn validator_passes_decoder_refusal_through() {
    let r = verify(Err("signature mismatch".to_string()), 150);
    match r {
        Err(ValidationError::BadSignature(m)) => assert_eq!(m, "signature mismatch"),
        other => panic!("expected BadSignature, got {:?}", other),
    }
}

#[test]
fn expired_credential_never_reaches_lookup() {
    let step = on_verified(Ok(claims(S1, 100, 200)), 500);
    match &step {
        GateStep::Rejected(e) => {
            assert!(matches!(e, Error::InvalidCredential(ValidationError::Expired)));
            assert_eq!(e.status_code(), 401);
        },
        other => panic!("expected Rejected, got {:?}", other),
    }
    assert!(!matches!(step, GateStep::NeedLookup(_)));
}

#[test]
fn non_uuid_session_identifier_rejected() {
    let step = on_verified(Ok(claims("not-a-uuid", 100, 200)), 150);
    assert!(matches!(
        step,
        GateStep::Rejected(Error::InvalidCredential(ValidationError::Malformed))
    ));
}

#[test]
fn uuid_session_identifier_parsed_to_its_value() {
    let step = on_verified(Ok(claims(S1, 100, 200)), 150);
    let expected = uuid::Uuid::parse_str(S1).unwrap().as_u128();
    match step {
        GateStep::NeedLookup(sid) => assert_eq!(sid.value, expected),
        other => panic!("expected NeedLookup, got {:?}", other),
    }
}

#[test]
fn scenario_cookie_token_grants_identity() {
    let tok = match begin(Some("T1".to_string()), None) {
        GateStep::NeedVerify(tok) => tok,
        other => panic!("expected NeedVerify, got {:?}", other),
    };
    assert_eq!(tok, "T1");
    let sid = match on_verified(Ok(claims(S1, 100, 200)), 150) {
        GateStep::NeedLookup(sid) => sid,
        other => panic!("expected NeedLookup, got {:?}", other),
    };
    match on_session(sid, Ok(Some("user-42".to_string()))) {
        GateStep::Granted(who) => {
            assert_eq!(who.user_id, "user-42");
            assert_eq!(who.access_token_uuid, sid);
            assert_eq!(who.access_token_uuid.value, uuid::Uuid::parse_str(S1).unwrap().as_u128());
        },
        other => panic!("expected Granted, got {:?}", other),
    }
}

#[test]
fn scenario_expired_bearer_token_rejected() {
    let tok = match begin(None, Some("Bearer T2".to_string())) {
        GateStep::NeedVerify(tok) => tok,
        other => panic!("expected NeedVerify, got {:?}", other),
    };
    assert_eq!(tok, "T2");
    // The token decodes fine, but its expiry has passed.
    let step = on_verified(Ok(claims(S1, 100, 200)), 300);
    match step {
        GateStep::Rejected(e) => {
            assert!(matches!(e, Error::InvalidCredential(ValidationError::Expired)));
            assert_eq!(e.status_code(), 401);
        },
        other => panic!("expected Rejected, got {:?}", other),
    }
}

#[test]
fn scenario_unknown_session_rejected() {
    let sid = match on_verified(Ok(claims(S1, 100, 200)), 150) {
        GateStep::NeedLookup(sid) => sid,
        other => panic!("expected NeedLookup, got {:?}", other),
    };
    let step = on_session(sid, Ok(None));
    match step {
        GateStep::Rejected(e) => {
            assert!(matches!(e, Error::SessionExpiredOrRevoked));
            assert_eq!(e.status_code(), 401);
        },
        other => panic!("expected Rejected, got {:?}", other),
    }
}

#[test]
fn unreachable_store_is_an_internal_fault_not_a_miss() {
    let sid = match on_verified(Ok(claims(S1, 100, 200)), 150) {
        GateStep::NeedLookup(sid) => sid,
        other => panic!("expected NeedLookup, got {:?}", other),
    };
    match on_session(sid, Err("connection refused".to_string())) {
        GateStep::Rejected(e) => {
            assert!(matches!(e, Error::SessionStoreUnavailable(_)));
            assert_eq!(e.status_code(), 500);
            assert_eq!(e.response_body(), "internal error");
        },
        other => panic!("expected Rejected, got {:?}", other),
    }
}
