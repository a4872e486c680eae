use pkce_auth::response::query_parameters;
use pkce_auth::AuthErrorKind;
use pkce_auth::FlowVariant;
use pkce_auth::OIDCClientData;
use pkce_auth::ProviderMetadata;

const VERIFIER: &str = "dBjftJeZ4CVP-mB92K27uhbUJU1p1r_wW1gFWFOEjXk";
const CHALLENGE: &str = "E9Melhoa2OwvFrEMTJguCHaoeK1t8URWbuGJSstw-cM";

fn plain(auth: &str, token: &str, redirect: &str) -> Result<OIDCClientData, pkce_auth::AuthError> {
    OIDCClientData::from(
        auth.to_string(),
        token.to_string(),
        "abc".to_string(),
        redirect.to_string(),
    )
}

fn oidc(
    issuer: &str,
    redirect: &str,
    auth: &str,
    token: &str,
) -> Result<OIDCClientData, pkce_auth::AuthError> {
    OIDCClientData::new(
        issuer.to_string(),
        "abc".to_string(),
        redirect.to_string(),
        ProviderMetadata {
            authorization_endpoint: auth.to_string(),
            token_endpoint: token.to_string(),
            signing_keys: Vec::new(),
            signing_algs: Vec::new(),
        },
    )
}

#[test]
fn plain_data_keeps_what_it_was_given() {
    let data = plain(
        "https://idp.example/auth",
        "https://idp.example/token",
        "https://app.example/cb",
    )
    .unwrap();
    assert_eq!(data.variant(), FlowVariant::PlainOAuth2);
    assert_eq!(data.issuer_url(), None);
    assert_eq!(data.authorization_endpoint(), "https://idp.example/auth");
    assert_eq!(data.token_endpoint(), "https://idp.example/token");
    assert_eq!(data.client_id(), "abc");
    assert_eq!(data.redirect_url(), "https://app.example/cb");
    assert!(data.signing_keys().is_empty());
    assert!(data.signing_algs().is_empty());
}

#[test]
fn oidc_data_keeps_what_it_was_given() {
    let data = oidc(
        "https://idp.example",
        "https://app.example/cb",
        "https://idp.example/auth",
        "https://idp.example/token",
    )
    .unwrap();
    assert_eq!(data.variant(), FlowVariant::OidcWithIdToken);
    assert_eq!(data.issuer_url(), Some("https://idp.example"));
    assert_eq!(data.authorization_endpoint(), "https://idp.example/auth");
    assert_eq!(data.token_endpoint(), "https://idp.example/token");
    assert_eq!(data.client_id(), "abc");
    assert_eq!(data.redirect_url(), "https://app.example/cb");
}

#[test]
fn plain_data_refuses_a_malformed_url() {
    let err = plain("idp.example/auth", "https://t.example", "https://r.example").unwrap_err();
    assert_eq!(err.kind(), AuthErrorKind::Configuration);
    assert_eq!(err.cause(), "relative URL without a base");

    let err = plain("https://a.example", "", "https://r.example").unwrap_err();
    assert_eq!(err.kind(), AuthErrorKind::Configuration);

    let err = plain("https://a.example", "https://t.example", "https://").unwrap_err();
    assert_eq!(err.kind(), AuthErrorKind::Configuration);
    assert_eq!(err.cause(), "empty host");
}

#[test]
fn plain_data_reports_the_first_malformed_url() {
    // The authorization endpoint is looked at before the redirect URL.
    let err = plain("https://", "https://t.example", "nonsense").unwrap_err();
    assert_eq!(err.cause(), "empty host");
    let err = plain("nonsense", "https://t.example", "https://").unwrap_err();
    assert_eq!(err.cause(), "relative URL without a base");
}

#[test]
fn oidc_data_reports_the_first_malformed_url() {
    let good = "https://ok.example";
    // Issuer, then redirect URL, then the endpoints of the metadata.
    let err = oidc("nonsense", "https://", good, good).unwrap_err();
    assert_eq!(err.kind(), AuthErrorKind::Configuration);
    assert_eq!(err.cause(), "relative URL without a base");
    let err = oidc(good, "https://", "nonsense", good).unwrap_err();
    assert_eq!(err.cause(), "empty host");
    let err = oidc(good, good, "nonsense", "https://").unwrap_err();
    assert_eq!(err.cause(), "relative URL without a base");
    let err = oidc(good, good, good, "https://").unwrap_err();
    assert_eq!(err.cause(), "empty host");
}

#[test]
fn plain_authorization_url_is_exact() {
    let data = plain(
        "https://idp.example/auth",
        "https://idp.example/token",
        "https://app.example/cb",
    )
    .unwrap();
    let url = data.authorize_url(VERIFIER, "st-1", None).unwrap();
    assert_eq!(
        url,
        format!(
            "https://idp.example/auth?response_type=code&client_id=abc&state=st-1\
             &code_challenge={}&code_challenge_method=S256\
             &redirect_uri=https%3A%2F%2Fapp.example%2Fcb",
            CHALLENGE
        )
    );
}

#[test]
fn oidc_authorization_url_is_exact() {
    let data = oidc(
        "https://idp.example",
        "https://app.example/cb",
        "https://idp.example/auth",
        "https://idp.example/token",
    )
    .unwrap();
    let url = data.authorize_url(VERIFIER, "st-1", Some("n-1")).unwrap();
    assert_eq!(
        url,
        format!(
            "https://idp.example/auth?response_type=code&client_id=abc&state=st-1\
             &code_challenge={}&code_challenge_method=S256\
             &redirect_uri=https%3A%2F%2Fapp.example%2Fcb&scope=openid&nonce=n-1",
            CHALLENGE
        )
    );
}

#[test]
fn oidc_data_builds_no_url_without_a_nonce() {
    let data = oidc(
        "https://idp.example",
        "https://app.example/cb",
        "https://idp.example/auth",
        "https://idp.example/token",
    )
    .unwrap();
    assert!(data.authorize_url(VERIFIER, "st-1", None).is_none());
    assert!(data.authorize_url(VERIFIER, "st-1", Some("")).is_some());
}

#[test]
fn plain_data_sends_no_nonce() {
    let data = plain(
        "https://idp.example/auth",
        "https://idp.example/token",
        "https://app.example/cb",
    )
    .unwrap();
    let with = data.authorize_url(VERIFIER, "st-1", Some("n-1")).unwrap();
    let without = data.authorize_url(VERIFIER, "st-1", None).unwrap();
    assert_eq!(with, without);
    assert!(!with.contains("nonce"));
}

#[test]
fn no_url_for_a_verifier_of_the_wrong_length() {
    let data = plain(
        "https://idp.example/auth",
        "https://idp.example/token",
        "https://app.example/cb",
    )
    .unwrap();
    assert!(data.authorize_url(&"a".repeat(42), "st", None).is_none());
    assert!(data.authorize_url(&"a".repeat(43), "st", None).is_some());
    assert!(data.authorize_url(&"a".repeat(128), "st", None).is_some());
    assert!(data.authorize_url(&"a".repeat(129), "st", None).is_none());
    assert!(data.authorize_url("", "st", None).is_none());
}

fn pair(name: &str, value: &str) -> (String, String) {
    (name.to_string(), value.to_string())
}

#[test]
fn plain_url_carries_the_endpoint_parameters_then_its_own() {
    for (endpoint, own) in [
        ("https://idp.example/auth", vec![]),
        ("https://idp.example/auth?", vec![]),
        ("https://idp.example/auth?tenant=t+1&x", vec![pair("tenant", "t 1"), pair("x", "")]),
        ("https://idp.example/auth?a=1&", vec![pair("a", "1")]),
        ("https://idp.example/auth?a=%zz#frag", vec![pair("a", "%zz")]),
        ("https://idp.example/auth#frag", vec![]),
    ] {
        let data = OIDCClientData::from(
            endpoint.to_string(),
            "https://idp.example/token".to_string(),
            "a b&c=d".to_string(),
            "https://app.example/cb?x=1&y=2#z".to_string(),
        )
        .unwrap();
        let url = data.authorize_url(VERIFIER, "s+t %&=#", None).unwrap();
        let mut expected = own;
        expected.extend([
            pair("response_type", "code"),
            pair("client_id", "a b&c=d"),
            pair("state", "s+t %&=#"),
            pair("code_challenge", CHALLENGE),
            pair("code_challenge_method", "S256"),
            pair("redirect_uri", "https://app.example/cb?x=1&y=2#z"),
        ]);
        assert_eq!(query_parameters(&url).unwrap(), expected);
        assert_eq!(
            query_parameters(endpoint).unwrap(),
            expected[..expected.len() - 6]
        );
    }
}

#[test]
fn oidc_url_carries_scope_and_nonce_last() {
    let data = oidc(
        "https://idp.example",
        "https://app.example/cb",
        "https://idp.example/auth?tenant=t1",
        "https://idp.example/token",
    )
    .unwrap();
    let url = data.authorize_url(VERIFIER, "st-1", Some("n é/1")).unwrap();
    assert_eq!(
        query_parameters(&url).unwrap(),
        vec![
            pair("tenant", "t1"),
            pair("response_type", "code"),
            pair("client_id", "abc"),
            pair("state", "st-1"),
            pair("code_challenge", CHALLENGE),
            pair("code_challenge_method", "S256"),
            pair("redirect_uri", "https://app.example/cb"),
            pair("scope", "openid"),
            pair("nonce", "n é/1"),
        ]
    );
}

#[test]
fn authorization_url_escapes_its_values() {
    let data = OIDCClientData::from(
        "https://idp.example/auth?tenant=t1".to_string(),
        "https://idp.example/token".to_string(),
        "a b&c".to_string(),
        "https://app.example/cb".to_string(),
    )
    .unwrap();
    let url = data.authorize_url(VERIFIER, "s=1", None).unwrap();
    assert!(url.starts_with(
        "https://idp.example/auth?tenant=t1&response_type=code&client_id=a+b%26c&state=s%3D1&"
    ));
}

#[test]
fn verification_without_issuer_is_refused() {
    let data = plain(
        "https://idp.example/auth",
        "https://idp.example/token",
        "https://app.example/cb",
    )
    .unwrap();
    let err = data.verify("a.b.c", "n").unwrap_err();
    assert_eq!(err, "No issuer to verify the id token against!");
}
