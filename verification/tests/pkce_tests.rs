use pkce_auth::pkce::TOKEN_LEN;
use pkce_auth::pkce::VERIFIER_LEN;
use pkce_auth::AuthErrorKind;
use pkce_auth::StoredState;
use pkce_auth::StoredValue;
use pkce_auth::PKCE;

fn value(text: &str) -> StoredValue {
    StoredValue::Value(text.to_string())
}

fn held(slot: &StoredValue) -> Option<&str> {
    match slot {
        StoredValue::Value(text) => Some(text.as_str()),
        _ => None,
    }
}

fn material(verifier: &str, csrf: &str, nonce: Option<&str>) -> PKCE {
    PKCE::new(
        verifier.to_string(),
        csrf.to_string(),
        nonce.map(|n| n.to_string()),
    )
}

#[test]
fn challenge_is_the_s256_of_the_verifier() {
    let m = material("dBjftJeZ4CVP-mB92K27uhbUJU1p1r_wW1gFWFOEjXk", "c", None);
    assert_eq!(
        m.challenge().as_deref(),
        Some("E9Melhoa2OwvFrEMTJguCHaoeK1t8URWbuGJSstw-cM")
    );
}

#[test]
fn challenge_needs_a_verifier_of_43_to_128_bytes() {
    assert!(material(&"a".repeat(42), "c", None).challenge().is_none());
    assert!(material(&"a".repeat(43), "c", None).challenge().is_some());
    assert!(material(&"a".repeat(128), "c", None).challenge().is_some());
    assert!(material(&"a".repeat(129), "c", None).challenge().is_none());
    assert!(material("", "c", None).challenge().is_none());
}

#[test]
fn challenge_length_counts_bytes_not_characters() {
    // 22 characters of two bytes each are 44 bytes.
    assert!(material(&"é".repeat(22), "c", None).challenge().is_some());
    assert!(material(&"é".repeat(21), "c", None).challenge().is_none());
}

#[test]
fn generated_challenge_belongs_to_generated_verifier() {
    let (m, challenge) = PKCE::generate(true);
    assert_eq!(m.verifier.len(), VERIFIER_LEN);
    assert_eq!(VERIFIER_LEN, 43);
    assert_eq!(m.challenge(), Some(challenge.clone()));
    assert_eq!(challenge.len(), 43);
    assert_ne!(challenge, m.verifier);
}

#[test]
fn generated_material_has_a_nonce_where_asked() {
    let (with, _) = PKCE::generate(true);
    let (without, _) = PKCE::generate(false);
    assert_eq!(with.nonce.as_ref().map(|n| n.len()), Some(TOKEN_LEN));
    assert!(without.nonce.is_none());
    assert_eq!(with.csrf.len(), TOKEN_LEN);
    assert_eq!(without.csrf.len(), 22);
}

#[test]
fn generated_material_is_fresh_each_time() {
    let (a, challenge_a) = PKCE::generate(true);
    let (b, challenge_b) = PKCE::generate(true);
    assert_ne!(a.verifier, b.verifier);
    assert_ne!(a.csrf, b.csrf);
    assert_ne!(a.nonce, b.nonce);
    assert_ne!(challenge_a, challenge_b);
}

#[test]
fn new_store_has_no_key_set() {
    let s = StoredState::new();
    assert!(matches!(s.verifier, StoredValue::Absent));
    assert!(matches!(s.csrf, StoredValue::Absent));
    assert!(matches!(s.nonce, StoredValue::Absent));
}

#[test]
fn clear_removes_the_three_keys() {
    let mut s = StoredState {
        verifier: value("v"),
        csrf: StoredValue::Failed("broken".to_string()),
        nonce: value("n"),
    };
    s.clear();
    assert!(matches!(s.verifier, StoredValue::Absent));
    assert!(matches!(s.csrf, StoredValue::Absent));
    assert!(matches!(s.nonce, StoredValue::Absent));
}

#[test]
fn store_writes_all_three_fields() {
    let mut s = StoredState::new();
    material("v1", "c1", Some("n1")).store(&mut s);
    assert_eq!(held(&s.verifier), Some("v1"));
    assert_eq!(held(&s.csrf), Some("c1"));
    assert_eq!(held(&s.nonce), Some("n1"));
}

#[test]
fn store_without_nonce_leaves_the_stored_nonce() {
    let mut s = StoredState {
        verifier: value("old-v"),
        csrf: value("old-c"),
        nonce: value("old-n"),
    };
    material("v1", "c1", None).store(&mut s);
    assert_eq!(held(&s.verifier), Some("v1"));
    assert_eq!(held(&s.csrf), Some("c1"));
    assert_eq!(held(&s.nonce), Some("old-n"));
}

#[test]
fn load_returns_what_was_stored() {
    for require_nonce in [true, false] {
        let mut s = StoredState {
            verifier: StoredValue::Failed("x".to_string()),
            csrf: StoredValue::Absent,
            nonce: value("stale"),
        };
        material("v1", "c1", Some("n1")).store(&mut s);
        let m = PKCE::load_from(&s, require_nonce).unwrap();
        assert_eq!(m.verifier, "v1");
        assert_eq!(m.csrf, "c1");
        assert_eq!(m.nonce.as_deref(), Some("n1"));
    }
}

#[test]
fn load_without_nonce_returns_what_was_stored() {
    let mut s = StoredState::new();
    material("v1", "c1", None).store(&mut s);
    let m = PKCE::load_from(&s, false).unwrap();
    assert_eq!(m.verifier, "v1");
    assert_eq!(m.csrf, "c1");
    assert!(m.nonce.is_none());
}

#[test]
fn empty_string_is_a_value_not_an_absence() {
    let s = StoredState {
        verifier: value(""),
        csrf: value(""),
        nonce: value(""),
    };
    let m = PKCE::load_from(&s, true).unwrap();
    assert_eq!(m.verifier, "");
    assert_eq!(m.csrf, "");
    assert_eq!(m.nonce.as_deref(), Some(""));
}

#[test]
fn load_from_empty_store_finds_no_challenge() {
    for require_nonce in [true, false] {
        let err = PKCE::load_from(&StoredState::new(), require_nonce).unwrap_err();
        assert_eq!(err.kind(), AuthErrorKind::NoActiveChallenge);
        assert_eq!(err.cause(), "No authentication data in storage found!");
    }
}

#[test]
fn with_nonce_a_partial_record_is_no_challenge() {
    let missing_nonce = StoredState {
        verifier: value("v"),
        csrf: value("c"),
        nonce: StoredValue::Absent,
    };
    let err = PKCE::load_from(&missing_nonce, true).unwrap_err();
    assert_eq!(err.kind(), AuthErrorKind::NoActiveChallenge);

    let missing_csrf = StoredState {
        verifier: value("v"),
        csrf: StoredValue::Absent,
        nonce: value("n"),
    };
    let err = PKCE::load_from(&missing_csrf, true).unwrap_err();
    assert_eq!(err.kind(), AuthErrorKind::NoActiveChallenge);
}

#[test]
fn with_nonce_an_absent_key_counts_before_a_failed_read() {
    let s = StoredState {
        verifier: StoredValue::Failed("quota".to_string()),
        csrf: value("c"),
        nonce: StoredValue::Absent,
    };
    let err = PKCE::load_from(&s, true).unwrap_err();
    assert_eq!(err.kind(), AuthErrorKind::NoActiveChallenge);
}

#[test]
fn with_nonce_the_first_failed_read_is_reported() {
    let s = StoredState {
        verifier: value("v"),
        csrf: StoredValue::Failed("second".to_string()),
        nonce: StoredValue::Failed("third".to_string()),
    };
    let err = PKCE::load_from(&s, true).unwrap_err();
    assert_eq!(err.kind(), AuthErrorKind::Storage);
    assert_eq!(err.cause(), "second");
}

#[test]
fn without_nonce_a_missing_key_is_named() {
    let no_verifier = StoredState {
        verifier: StoredValue::Absent,
        csrf: value("c"),
        nonce: StoredValue::Absent,
    };
    let err = PKCE::load_from(&no_verifier, false).unwrap_err();
    assert_eq!(err.kind(), AuthErrorKind::MissingState);
    assert_eq!(err.cause(), "Missing in storage: verifier");

    let no_csrf = StoredState {
        verifier: value("v"),
        csrf: StoredValue::Absent,
        nonce: value("n"),
    };
    let err = PKCE::load_from(&no_csrf, false).unwrap_err();
    assert_eq!(err.kind(), AuthErrorKind::MissingState);
    assert_eq!(err.cause(), "Missing in storage: csrf");
}

#[test]
fn without_nonce_a_failed_read_is_reported() {
    let s = StoredState {
        verifier: StoredValue::Failed("first".to_string()),
        csrf: value("c"),
        nonce: StoredValue::Failed("ignored".to_string()),
    };
    let err = PKCE::load_from(&s, false).unwrap_err();
    assert_eq!(err.kind(), AuthErrorKind::Storage);
    assert_eq!(err.cause(), "first");
}

#[test]
fn without_nonce_an_unreadable_nonce_is_left_out() {
    let s = StoredState {
        verifier: value("v"),
        csrf: value("c"),
        nonce: StoredValue::Failed("ignored".to_string()),
    };
    let m = PKCE::load_from(&s, false).unwrap();
    assert!(m.nonce.is_none());
}

#[test]
fn destructure_gives_the_three_parts() {
    let (verifier, csrf, nonce) = material("v", "c", Some("n")).destructure();
    assert_eq!(verifier, "v");
    assert_eq!(csrf, "c");
    assert_eq!(nonce.as_deref(), Some("n"));
}

fn is_url_safe(text: &str) -> bool {
    text.chars()
        .all(|c| c.is_ascii_alphanumeric() || c == '-' || c == '_')
}

#[test]
fn generated_values_are_made_of_the_url_safe_alphabet() {
    for _ in 0..50 {
        let (m, challenge) = PKCE::generate(true);
        assert!(is_url_safe(&m.verifier));
        assert!(is_url_safe(&m.csrf));
        assert!(is_url_safe(m.nonce.as_deref().unwrap()));
        assert!(is_url_safe(&challenge));
        assert_eq!(m.verifier.len(), 43);
    }
}
