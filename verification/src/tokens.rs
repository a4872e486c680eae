//! What the token endpoint answers, and when the answer is accepted.
//!
//! The exchange itself is a network round trip that the caller makes. Its
//! outcome comes back as an `ExchangeOutcome`; this module decides what
//! becomes of it. For OpenID Connect the ID token must be there and verify,
//! and where its claims carry a hash of the access token, the access token
//! must hash to it.

use vstd::prelude::*;
use openidconnect::AccessToken;
use openidconnect::AccessTokenHash;
use openidconnect::ClientId;
use openidconnect::IssuerUrl;
use openidconnect::Nonce;
use crate::error::AuthError;
use crate::error::AuthErrorKind;
use crate::error::AuthFailure;
use crate::response::parses_as_url;

verus! {

/// An optional string as contracts speak of it.
pub open spec fn opt_text(s: Option<String>) -> Option<Seq<char>> {
    match s {
        Some(text) => Some(text@),
        None => None,
    }
}

/// The tokens of a token response, as the endpoint sent them. The ID token
/// is in its compact form.
#[derive(Debug)]
pub struct TokenResponse {
    pub access_token: String,
    pub refresh_token: Option<String>,
    pub id_token: Option<String>,
}

/// A `TokenResponse` as contracts speak of it.
pub struct TokenResponseView {
    pub access_token: Seq<char>,
    pub refresh_token: Option<Seq<char>>,
    pub id_token: Option<Seq<char>>,
}

impl View for TokenResponse {
    type V = TokenResponseView;

    open spec fn view(&self) -> TokenResponseView {
        TokenResponseView {
            access_token: self.access_token@,
            refresh_token: opt_text(self.refresh_token),
            id_token: opt_text(self.id_token),
        }
    }
}

/// How the exchange of the code ended.
#[derive(Debug)]
pub enum ExchangeOutcome {
    /// The endpoint could not be reached or refused the code; the cause is
    /// kept as it came.
    Failed(String),
    /// The endpoint answered with tokens.
    Answered(TokenResponse),
}

/// An `ExchangeOutcome` as contracts speak of it.
pub enum ExchangeOutcomeView {
    Failed(Seq<char>),
    Answered(TokenResponseView),
}

impl View for ExchangeOutcome {
    type V = ExchangeOutcomeView;

    open spec fn view(&self) -> ExchangeOutcomeView {
        match self {
            ExchangeOutcome::Failed(cause) => ExchangeOutcomeView::Failed(cause@),
            ExchangeOutcome::Answered(response) => ExchangeOutcomeView::Answered(response@),
        }
    }
}

/// The claims of a verified ID token that the session keeps.
#[derive(Debug)]
pub struct IdTokenClaims {
    pub subject: String,
    pub access_token_hash: Option<String>,
}

/// `IdTokenClaims` as contracts speak of them.
pub struct IdTokenClaimsView {
    pub subject: Seq<char>,
    pub access_token_hash: Option<Seq<char>>,
}

impl View for IdTokenClaims {
    type V = IdTokenClaimsView;

    open spec fn view(&self) -> IdTokenClaimsView {
        IdTokenClaimsView {
            subject: self.subject@,
            access_token_hash: opt_text(self.access_token_hash),
        }
    }
}

/// The tokens of an authenticated session, with the claims of the ID token
/// where the flow has one.
#[derive(Debug)]
pub struct TokenSet {
    pub id_token: Option<String>,
    pub access_token: String,
    pub refresh_token: Option<String>,
    pub claims: Option<IdTokenClaims>,
}

/// A `TokenSet` as contracts speak of it.
pub struct TokenSetView {
    pub id_token: Option<Seq<char>>,
    pub access_token: Seq<char>,
    pub refresh_token: Option<Seq<char>>,
    pub claims: Option<IdTokenClaimsView>,
}

impl View for TokenSet {
    type V = TokenSetView;

    open spec fn view(&self) -> TokenSetView {
        TokenSetView {
            id_token: opt_text(self.id_token),
            access_token: self.access_token@,
            refresh_token: opt_text(self.refresh_token),
            claims: match self.claims {
                Some(claims) => Some(claims@),
                None => None,
            },
        }
    }
}

/// The verified claims of an ID token, or what the verification objected
/// to, as contracts speak of it.
pub open spec fn verification_view(v: Result<IdTokenClaims, String>) -> Result<
    IdTokenClaimsView,
    Seq<char>,
> {
    match v {
        Ok(claims) => Ok(claims@),
        Err(cause) => Err(cause@),
    }
}

/// A recomputed hash, or why there is none, as contracts speak of it.
pub open spec fn hash_view(h: Result<String, String>) -> Result<Seq<char>, Seq<char>> {
    match h {
        Ok(hash) => Ok(hash@),
        Err(cause) => Err(cause@),
    }
}

/// An accepted token set, or the error, as contracts speak of it.
pub open spec fn accepted_view(r: Result<TokenSet, AuthError>) -> Result<TokenSetView, AuthFailure> {
    match r {
        Ok(tokens) => Ok(tokens@),
        Err(e) => Err(e@),
    }
}

/// The hash of an access token under the signing algorithm of an ID token:
/// what `openidconnect::AccessTokenHash::from_token` gives for the access
/// token and the algorithm that `openidconnect::IdToken::signing_alg` reads
/// from the ID token. Where the ID token does not parse, names no signing
/// algorithm, or names one that cannot hash, it is the error's text.
pub uninterp spec fn token_hash_under(id_token: Seq<char>, access_token: Seq<char>) -> Result<
    Seq<char>,
    Seq<char>,
>;

/// What the payload of an ID token says, as far as the session reads it.
pub struct IdTokenPayload {
    /// The claims that the session keeps.
    pub claims: IdTokenClaimsView,
    /// The `nonce` claim, if there is one.
    pub nonce: Option<Seq<char>>,
    /// The `iss` claim, if there is one.
    pub issuer: Option<Seq<char>>,
    /// The `aud` claim: every audience that the token names.
    pub audiences: Seq<Seq<char>>,
}

/// The payload of the ID token written as `id_token`, as
/// `openidconnect::IdToken::claims` reads it. It says something only of a
/// text that the verification accepts.
pub uninterp spec fn payload_of(id_token: Seq<char>) -> IdTokenPayload;

/// Whether claims can be what a verification of the ID token gave, run for
/// the given nonce, issuer and client id: they are the token's own, and the
/// token names that nonce, that issuer and that client.
pub open spec fn bears_out(
    id_token: Seq<char>,
    nonce: Seq<char>,
    issuer: Seq<char>,
    client_id: Seq<char>,
    claims: IdTokenClaimsView,
) -> bool {
    &&& claims == payload_of(id_token).claims
    &&& payload_of(id_token).nonce == Some(nonce)
    &&& payload_of(id_token).issuer == Some(issuer)
    &&& payload_of(id_token).audiences.contains(client_id)
}

/// Parses the ID token, verifies it with
/// `openidconnect::IdToken::claims` against a verifier for a public client
/// made of the client id, the issuer, the keys and the allowed algorithms,
/// and hands out the claims that the session keeps. An error comes back as
/// its text. The verification reads the clock, so nothing is said of when
/// it succeeds. Where it does, the claims are those of the token's own
/// payload, and the verification has found in that payload the nonce and
/// the issuer that it was given, and the client id among the audiences. The
/// issuer must parse as a URL.
#[verifier::external_body]
pub(crate) fn verify_id_token(
    id_token: &str,
    nonce: String,
    issuer: String,
    client_id: String,
    keys: &Vec<openidconnect::core::CoreJsonWebKey>,
    algs: &Vec<openidconnect::core::CoreJwsSigningAlgorithm>,
) -> (r: Result<IdTokenClaims, String>)
    requires
        parses_as_url(issuer@),
    ensures
        r is Ok ==> r->Ok_0@ == payload_of(id_token@).claims,
        r is Ok ==> payload_of(id_token@).nonce == Some(nonce@),
        r is Ok ==> payload_of(id_token@).issuer == Some(issuer@),
        r is Ok ==> payload_of(id_token@).audiences.contains(client_id@),
{
    let token = id_token.parse::<openidconnect::core::CoreIdToken>().map_err(|e| e.to_string())?;
    let issuer = IssuerUrl::new(issuer).unwrap();
    let keys = openidconnect::JsonWebKeySet::new(keys.clone());
    let verifier = openidconnect::IdTokenVerifier::new_public_client(ClientId::new(client_id), issuer, keys)
        .set_allowed_algs(algs.clone());
    let claims = token.claims(&verifier, &Nonce::new(nonce)).map_err(|e| e.to_string())?;
    let access_token_hash = claims.access_token_hash().map(|h| h.to_string());
    Ok(IdTokenClaims { subject: claims.subject().to_string(), access_token_hash })
}

/// Parses the ID token, reads its signing algorithm with
/// `openidconnect::IdToken::signing_alg`, and hashes the access token with
/// `openidconnect::AccessTokenHash::from_token` under it. An error of any
/// of the three comes back as its text. The outcome is the one that
/// `token_hash_under` stands for.
#[verifier::external_body]
pub(crate) fn recompute_token_hash(id_token: &str, access_token: &str) -> (r: Result<
    String,
    String,
>)
    ensures
        hash_view(r) == token_hash_under(id_token@, access_token@),
{
    let token = id_token.parse::<openidconnect::core::CoreIdToken>().map_err(|e| e.to_string())?;
    let alg = token.signing_alg().map_err(|e| e.to_string())?;
    let access = AccessToken::new(access_token.to_string());
    let hash = AccessTokenHash::from_token(&access, &alg);
    hash.map(|h| h.to_string()).map_err(|e| e.to_string())
}

/// The cause given where the access token does not hash to what the ID
/// token says.
pub open spec fn tamper_cause() -> Seq<char> {
    "The used and expected hash algorithms are not the same!"@
}

/// The cause given where the token response has no ID token.
pub open spec fn missing_id_token_cause() -> Seq<char> {
    "The server did not respond with an id token!"@
}

/// Whether a recomputed hash bears out the expected one: it does if it is
/// the same text. A hash that could not be computed invalidates the ID
/// token; another hash means that the access token was exchanged.
pub open spec fn hash_verdict(expected: Seq<char>, recomputed: Result<Seq<char>, Seq<char>>) -> Result<
    (),
    AuthFailure,
> {
    match recomputed {
        Err(cause) => Err(AuthFailure { kind: AuthErrorKind::IdTokenValidation, cause }),
        Ok(actual) => if actual == expected {
            Ok(())
        } else {
            Err(AuthFailure { kind: AuthErrorKind::TokenTamper, cause: tamper_cause() })
        },
    }
}

/// What becomes of verified claims: they stand if they carry no hash of
/// the access token, or if the access token hashes to it under the ID
/// token's signing algorithm.
pub open spec fn claims_verdict(
    id_token: Seq<char>,
    access_token: Seq<char>,
    claims: IdTokenClaimsView,
) -> Result<(), AuthFailure> {
    match claims.access_token_hash {
        None => Ok(()),
        Some(expected) => hash_verdict(expected, token_hash_under(id_token, access_token)),
    }
}

/// The token set that a response gives in the flow with an ID token, for
/// the outcome of the ID token's verification. Without an ID token there is
/// nothing to verify, and the outcome given for it does not count.
pub open spec fn judged(
    response: TokenResponseView,
    verification: Result<IdTokenClaimsView, Seq<char>>,
) -> Result<TokenSetView, AuthFailure> {
    if response.id_token is None {
        Err(AuthFailure { kind: AuthErrorKind::MissingIdToken, cause: missing_id_token_cause() })
    } else {
        match verification {
            Err(cause) => Err(AuthFailure { kind: AuthErrorKind::IdTokenValidation, cause }),
            Ok(claims) => match claims_verdict(
                response.id_token->0,
                response.access_token,
                claims,
            ) {
                Err(failure) => Err(failure),
                Ok(_) => Ok(
                    TokenSetView {
                        id_token: response.id_token,
                        access_token: response.access_token,
                        refresh_token: response.refresh_token,
                        claims: Some(claims),
                    },
                ),
            },
        }
    }
}

/// The token set that a response gives in the plain flow: the tokens as
/// they came, and no claims.
pub open spec fn taken_plain(response: TokenResponseView) -> TokenSetView {
    TokenSetView {
        id_token: response.id_token,
        access_token: response.access_token,
        refresh_token: response.refresh_token,
        claims: None,
    }
}

/// A verdict, or the error, as contracts speak of it.
pub open spec fn verdict_view(r: Result<(), AuthError>) -> Result<(), AuthFailure> {
    match r {
        Ok(_) => Ok(()),
        Err(e) => Err(e@),
    }
}

/// Holds a recomputed hash of the access token against the one that the ID
/// token's claims carry.
pub fn compare_token_hash(expected: &str, recomputed: Result<String, String>) -> (r: Result<
    (),
    AuthError,
>)
    ensures
        verdict_view(r) == hash_verdict(expected@, hash_view(recomputed)),
{
    match recomputed {
        Err(cause) => Err(AuthError::new(AuthErrorKind::IdTokenValidation, cause)),
        Ok(actual) => {
            if str_eq(actual.as_str(), expected) {
                Ok(())
            } else {
                Err(
                    AuthError::of(
                        AuthErrorKind::TokenTamper,
                        "The used and expected hash algorithms are not the same!",
                    ),
                )
            }
        },
    }
}

/// Whether two texts are the same.
pub fn str_eq(a: &str, b: &str) -> (same: bool)
    ensures
        same == (a@ == b@),
{
    let a_owned = a.to_owned();
    let b_owned = b.to_owned();
    a_owned == b_owned
}

/// Checks verified claims against the access token they came with.
pub fn check_claims(id_token: &str, access_token: &str, claims: &IdTokenClaims) -> (r: Result<
    (),
    AuthError,
>)
    ensures
        verdict_view(r) == claims_verdict(id_token@, access_token@, claims@),
{
    match &claims.access_token_hash {
        None => Ok(()),
        Some(expected) => compare_token_hash(
            expected.as_str(),
            recompute_token_hash(id_token, access_token),
        ),
    }
}

/// Decides what becomes of a token response in the flow with an ID token,
/// given the outcome of the ID token's verification.
///
/// A response without an ID token is a `MissingIdToken` error. A failed
/// verification is an `IdTokenValidation` error with the verification's own
/// cause. Verified claims are checked against the access token. If they
/// stand, the tokens and the claims make the token set.
pub fn judge(response: TokenResponse, verification: Result<IdTokenClaims, String>) -> (r: Result<
    TokenSet,
    AuthError,
>)
    ensures
        accepted_view(r) == judged(response@, verification_view(verification)),
{
    let TokenResponse { access_token, refresh_token, id_token } = response;
    let id_token = match id_token {
        Some(id_token) => id_token,
        None => {
            return Err(
                AuthError::of(
                    AuthErrorKind::MissingIdToken,
                    "The server did not respond with an id token!",
                ),
            );
        },
    };
    let claims = match verification {
        Err(cause) => {
            return Err(AuthError::new(AuthErrorKind::IdTokenValidation, cause));
        },
        Ok(claims) => claims,
    };
    match check_claims(id_token.as_str(), access_token.as_str(), &claims) {
        Err(e) => Err(e),
        Ok(_) => Ok(
            TokenSet { id_token: Some(id_token), access_token, refresh_token, claims: Some(claims) },
        ),
    }
}

/// Takes the tokens of a response as they came, for the plain flow.
pub fn take_plain(response: TokenResponse) -> (tokens: TokenSet)
    ensures
        tokens@ == taken_plain(response@),
{
    let TokenResponse { access_token, refresh_token, id_token } = response;
    TokenSet { id_token, access_token, refresh_token, claims: None }
}

} // verus!
