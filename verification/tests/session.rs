use clash_service_ipc::error::ServiceErrorCode;
use clash_service_ipc::paths::ServicePath;
use clash_service_ipc::session::{
    constant_time_eq, header_text, require_active_owner, require_active_session,
    require_protocol_version, supplied_protocol_header, ActiveOwnerState, AuthenticatedOwner,
    OwnerIdentity, OwnerSessionProof, ProtocolVersion,
};

fn owner(uid: u32) -> AuthenticatedOwner {
    AuthenticatedOwner {
        key: uid.to_string(),
        identity: OwnerIdentity::Unix { uid, gid: 20 },
        app_data_root: ServicePath { parts: Vec::new() },
    }
}

/// The hash of a token in these tests: the token with a mark before it.
fn hash(token: &str) -> Result<String, String> {
    if token.len() != 64 {
        return Err("not a session token".to_string());
    }
    Ok(format!("hash-{token}"))
}

fn session(owner: &AuthenticatedOwner, generation: u64, token: &str) -> ActiveOwnerState {
    ActiveOwnerState {
        owner_key: owner.key.clone(),
        generation,
        session_token_hash: hash(token).expect("token"),
    }
}

fn shown_proof(generation: u64, token: &str) -> OwnerSessionProof {
    OwnerSessionProof {
        generation,
        token: token.to_string(),
    }
}

#[test]
fn non_active_owner_receives_stable_error() {
    let active = owner(92_001);
    let inactive = owner(92_002);
    let record = Ok(Some(session(&active, 1, &"10".repeat(32))));

    let error =
        require_active_owner(&record, &inactive).expect_err("non-active owner must be rejected");

    assert_eq!(error.code, ServiceErrorCode::NotActive);
    assert!(require_active_owner(&record, &active).is_ok());
}

#[test]
fn unreadable_or_missing_record_makes_no_owner_active() {
    let asked = owner(92_003);
    assert_eq!(
        require_active_owner(&Ok(None), &asked).expect_err("none").code,
        ServiceErrorCode::NotActive
    );
    assert_eq!(
        require_active_owner(&Err("unreadable".to_string()), &asked)
            .expect_err("none")
            .code,
        ServiceErrorCode::NotActive
    );
}

#[test]
fn same_owner_new_session_invalidates_old_proof() {
    let owner = owner(95_001);
    let first = session(&owner, 1, &"11".repeat(32));
    let first_proof = shown_proof(first.generation, &"11".repeat(32));
    let token_hash = hash(&first_proof.token);
    let admitted = require_active_session(Ok(Some(first)), &owner, &first_proof, &token_hash)
        .expect("current session");
    let second = session(&owner, admitted.generation + 1, &"22".repeat(32));
    assert!(second.generation > admitted.generation);
    assert_eq!(
        require_active_session(Ok(Some(second)), &owner, &first_proof, &token_hash)
            .expect_err("old proof must be stale")
            .code,
        ServiceErrorCode::StaleOwnerSession,
    );
}

#[test]
fn legacy_active_owner_session_fails_closed() {
    let owner = owner(95_002);
    let legacy = ActiveOwnerState {
        owner_key: owner.key.clone(),
        generation: 0,
        session_token_hash: String::new(),
    };
    let shown = shown_proof(0, &"55".repeat(32));
    let token_hash = hash(&shown.token);

    assert_eq!(
        require_active_session(Ok(Some(legacy)), &owner, &shown, &token_hash)
            .expect_err("legacy owner must not authenticate a session")
            .code,
        ServiceErrorCode::StaleOwnerSession,
    );
}

#[test]
fn session_needs_owner_generation_and_token() {
    let right = owner(95_003);
    let wrong = owner(95_004);
    let token = "33".repeat(32);
    let refused = |record, who: &AuthenticatedOwner, shown: &OwnerSessionProof| {
        let token_hash = hash(&shown.token);
        require_active_session(record, who, shown, &token_hash)
            .expect_err("must be stale")
            .code
    };
    let stale = ServiceErrorCode::StaleOwnerSession;
    assert_eq!(refused(Ok(None), &right, &shown_proof(4, &token)), stale);
    assert_eq!(
        refused(Err("unreadable".to_string()), &right, &shown_proof(4, &token)),
        stale
    );
    assert_eq!(
        refused(Ok(Some(session(&right, 4, &token))), &wrong, &shown_proof(4, &token)),
        stale
    );
    assert_eq!(
        refused(Ok(Some(session(&right, 4, &token))), &right, &shown_proof(5, &token)),
        stale
    );
    assert_eq!(
        refused(
            Ok(Some(session(&right, 4, &token))),
            &right,
            &shown_proof(4, &"44".repeat(32))
        ),
        stale
    );
    assert_eq!(
        refused(Ok(Some(session(&right, 4, &token))), &right, &shown_proof(4, "short")),
        stale
    );
}

#[test]
fn bytes_are_compared_whole() {
    assert!(constant_time_eq(b"", b""));
    assert!(constant_time_eq(b"abc", b"abc"));
    assert!(!constant_time_eq(b"abc", b"abd"));
    assert!(!constant_time_eq(b"abc", b"ab"));
    assert!(!constant_time_eq(b"\x01\x02", b"\x02\x01"));
}

#[test]
fn protocol_needs_same_epoch_and_supported_revision() {
    let current = ProtocolVersion {
        epoch: 2,
        revision: 9,
    };
    let version = |epoch, revision| Some(ProtocolVersion { epoch, revision });
    assert!(require_protocol_version(version(2, 5), current, 5).is_ok());
    assert!(require_protocol_version(version(2, 11), current, 5).is_ok());
    for refused in [None, version(2, 4), version(1, 9), version(3, 9)] {
        assert_eq!(
            require_protocol_version(refused, current, 5)
                .expect_err("must be refused")
                .code,
            ServiceErrorCode::ProtocolMismatch
        );
    }
}

#[test]
fn protocol_header_is_read_from_the_header_map() {
    let mut headers = http::HeaderMap::new();
    assert_eq!(supplied_protocol_header(&headers, "x-protocol"), None);
    headers.insert("x-protocol", http::HeaderValue::from_static("2.7"));
    assert_eq!(
        supplied_protocol_header(&headers, "x-protocol"),
        Some("2.7".to_string())
    );
    assert_eq!(
        supplied_protocol_header(&headers, "X-Protocol"),
        Some("2.7".to_string())
    );
    assert_eq!(supplied_protocol_header(&headers, "not a name"), None);
    headers.append("x-protocol", http::HeaderValue::from_static("9.9"));
    assert_eq!(
        supplied_protocol_header(&headers, "x-protocol"),
        Some("2.7".to_string())
    );
    headers.insert(
        "x-protocol",
        http::HeaderValue::from_bytes(b"caf\xc3\xa9").expect("header value"),
    );
    assert_eq!(supplied_protocol_header(&headers, "x-protocol"), None);
}

#[test]
fn header_text_is_visible_ascii() {
    assert_eq!(header_text(&b"a b\t~".to_vec()), Some("a b\t~".to_string()));
    assert_eq!(header_text(&vec![127]), None);
    assert_eq!(header_text(&vec![10]), None);
    assert_eq!(header_text(&vec![200]), None);
    assert_eq!(header_text(&Vec::new()), Some(String::new()));
}
