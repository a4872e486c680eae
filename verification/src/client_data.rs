//! The provider a session talks to: its endpoints, the client's identity
//! there, and for OpenID Connect the issuer with its signing keys.

use vstd::prelude::*;
use vstd::string::StringExecFns;
use oauth2::AuthUrl;
use oauth2::ClientId;
use oauth2::CsrfToken;
use oauth2::PkceCodeChallenge;
use oauth2::PkceCodeVerifier;
use oauth2::RedirectUrl;
use oauth2::basic::BasicClient;
use openidconnect::IssuerUrl;
use openidconnect::Nonce;
use crate::error::AuthError;
use crate::error::AuthErrorKind;
use crate::error::AuthFailure;
use crate::pkce::derivable;
use crate::pkce::s256_challenge;
use crate::pkce::VERIFIER_LEN;
use crate::pkce::VERIFIER_MAX_LEN;
use crate::response::parse_fault;
use crate::response::parses_as_url;
use crate::response::query_pairs_of;
use crate::response::url_parse_fault;
use crate::tokens::bears_out;
use crate::tokens::verify_id_token;
use crate::tokens::IdTokenClaims;

verus! {

/// A key of the provider's JSON Web Key Set. Nothing is read from it here;
/// it is handed to the ID token verification as it came.
#[verifier::external_type_specification]
#[verifier::external_body]
pub struct ExCoreJsonWebKey(openidconnect::core::CoreJsonWebKey);

/// A JWS signing algorithm that the provider supports. Nothing is read from
/// it here; it is handed to the ID token verification as it came.
#[verifier::external_type_specification]
#[verifier::external_body]
pub struct ExCoreJwsSigningAlgorithm(openidconnect::core::CoreJwsSigningAlgorithm);

/// Which flow a session runs.
#[derive(Clone, Copy, Debug, PartialEq, Eq, Structural)]
pub enum FlowVariant {
    /// The authorization-code flow of OAuth2 with PKCE.
    PlainOAuth2,
    /// The same flow of OpenID Connect: with a nonce and an ID token.
    OidcWithIdToken,
}

/// What discovery yields of a provider: its endpoints, its signing keys and
/// the algorithms it signs ID tokens with.
#[derive(Debug)]
pub struct ProviderMetadata {
    pub authorization_endpoint: String,
    pub token_endpoint: String,
    pub signing_keys: Vec<openidconnect::core::CoreJsonWebKey>,
    pub signing_algs: Vec<openidconnect::core::CoreJwsSigningAlgorithm>,
}

/// The provider data of a session. Every URL in it is one that
/// `url::Url::parse` accepts.
#[derive(Debug)]
pub struct OIDCClientData {
    issuer_url: Option<String>,
    authorization_endpoint: String,
    token_endpoint: String,
    client_id: String,
    redirect_url: String,
    signing_keys: Vec<openidconnect::core::CoreJsonWebKey>,
    signing_algs: Vec<openidconnect::core::CoreJwsSigningAlgorithm>,
}

/// The first of two faults: the first where there is one, else the second.
pub open spec fn or_fault(first: Option<Seq<char>>, second: Option<Seq<char>>) -> Option<
    Seq<char>,
> {
    if first is Some {
        first
    } else {
        second
    }
}

/// The parser's error on the first of three texts that is no URL.
pub open spec fn first_fault(a: Seq<char>, b: Seq<char>, c: Seq<char>) -> Option<Seq<char>> {
    or_fault(url_parse_fault(a), or_fault(url_parse_fault(b), url_parse_fault(c)))
}

/// The cause given where an ID token is to be verified for a provider
/// without an issuer.
pub open spec fn no_issuer_cause() -> Seq<char> {
    "No issuer to verify the id token against!"@
}

/// The query parameters that an authorization request of OAuth2 adds to
/// the authorization endpoint, in their order.
pub open spec fn oauth2_pairs(
    client_id: Seq<char>,
    redirect_url: Seq<char>,
    verifier: Seq<char>,
    csrf: Seq<char>,
) -> Seq<(Seq<char>, Seq<char>)> {
    seq![
        ("response_type"@, "code"@),
        ("client_id"@, client_id),
        ("state"@, csrf),
        ("code_challenge"@, s256_challenge(verifier)),
        ("code_challenge_method"@, "S256"@),
        ("redirect_uri"@, redirect_url),
    ]
}

/// The query parameters that an authorization request of OpenID Connect
/// adds to the authorization endpoint, in their order: those of OAuth2,
/// then the scope and the nonce.
pub open spec fn oidc_pairs(
    client_id: Seq<char>,
    redirect_url: Seq<char>,
    verifier: Seq<char>,
    csrf: Seq<char>,
    nonce: Seq<char>,
) -> Seq<(Seq<char>, Seq<char>)> {
    oauth2_pairs(client_id, redirect_url, verifier, csrf) + seq![
        ("scope"@, "openid"@),
        ("nonce"@, nonce),
    ]
}

/// The authorization URL that `oauth2::Client::authorize_url` builds for
/// the authorization endpoint, the client id and the redirect URL, with the
/// S256 challenge of the verifier and the CSRF token as state.
pub uninterp spec fn oauth2_authorize_url(
    endpoint: Seq<char>,
    client_id: Seq<char>,
    redirect_url: Seq<char>,
    verifier: Seq<char>,
    csrf: Seq<char>,
) -> Seq<char>;

/// The authorization URL that `openidconnect::Client::authorize_url` builds
/// for the code flow, for the issuer, the authorization endpoint, the
/// client id and the redirect URL, with the S256 challenge of the verifier,
/// the CSRF token as state, and the nonce.
pub uninterp spec fn oidc_authorize_url(
    issuer_url: Seq<char>,
    endpoint: Seq<char>,
    client_id: Seq<char>,
    redirect_url: Seq<char>,
    verifier: Seq<char>,
    csrf: Seq<char>,
    nonce: Seq<char>,
) -> Seq<char>;

/// Builds the authorization request of `oauth2::Client::authorize_url` with
/// the PKCE challenge of the verifier, and hands out its URL as a string.
/// The client is made of the arguments alone, so the URL is a function of
/// them. A challenge can only be handed over as the crate's own type, which
/// `from_code_verifier_sha256` makes of the verifier. The URL is the
/// endpoint with the request's parameters added to its query, as
/// `oauth2::AuthorizationRequest::url` lists them: read back with
/// `url::Url::query_pairs`, it gives the endpoint's own parameters and then
/// those. The URLs must parse and a challenge must be derivable, else the
/// constructors in the body panic.
#[verifier::external_body]
pub(crate) fn build_oauth2_url(
    endpoint: String,
    client_id: String,
    redirect_url: String,
    verifier: String,
    csrf: String,
) -> (url: String)
    requires
        parses_as_url(endpoint@),
        parses_as_url(redirect_url@),
        derivable(verifier@),
    ensures
        url@ == oauth2_authorize_url(endpoint@, client_id@, redirect_url@, verifier@, csrf@),
        parses_as_url(url@),
        query_pairs_of(url@) == query_pairs_of(endpoint@) + oauth2_pairs(
            client_id@,
            redirect_url@,
            verifier@,
            csrf@,
        ),
{
    let challenge = PkceCodeChallenge::from_code_verifier_sha256(&PkceCodeVerifier::new(verifier));
    let endpoint = AuthUrl::new(endpoint).unwrap();
    let csrf = CsrfToken::new(csrf);
    let client = BasicClient::new(ClientId::new(client_id), None, endpoint, None)
        .set_redirect_uri(RedirectUrl::new(redirect_url).unwrap());
    let request = client.authorize_url(move || csrf);
    request.set_pkce_challenge(challenge).url().0.to_string()
}

/// Builds the authorization request of
/// `openidconnect::Client::authorize_url` for the code flow, with the PKCE
/// challenge of the verifier, and hands out its URL as a string. The client
/// is made of the arguments alone, with no keys, so the URL is a function
/// of them. A challenge can only be handed over as the crate's own type,
/// which `from_code_verifier_sha256` makes of the verifier. The URL is the
/// endpoint with the request's parameters added to its query, as
/// `openidconnect::AuthorizationRequest::url` lists them: read back with
/// `url::Url::query_pairs`, it gives the endpoint's own parameters and then
/// those. The URLs must parse and a challenge must be derivable, else the
/// constructors in the body panic.
#[verifier::external_body]
pub(crate) fn build_oidc_url(
    issuer_url: String,
    endpoint: String,
    client_id: String,
    redirect_url: String,
    verifier: String,
    csrf: String,
    nonce: String,
) -> (url: String)
    requires
        parses_as_url(issuer_url@),
        parses_as_url(endpoint@),
        parses_as_url(redirect_url@),
        derivable(verifier@),
    ensures
        url@ == oidc_authorize_url(
            issuer_url@,
            endpoint@,
            client_id@,
            redirect_url@,
            verifier@,
            csrf@,
            nonce@,
        ),
        parses_as_url(url@),
        query_pairs_of(url@) == query_pairs_of(endpoint@) + oidc_pairs(
            client_id@,
            redirect_url@,
            verifier@,
            csrf@,
            nonce@,
        ),
{
    let challenge = PkceCodeChallenge::from_code_verifier_sha256(&PkceCodeVerifier::new(verifier));
    let issuer = IssuerUrl::new(issuer_url).unwrap();
    let endpoint = AuthUrl::new(endpoint).unwrap();
    let id = ClientId::new(client_id);
    let keys = Default::default();
    let client = openidconnect::core::CoreClient::new(id, None, issuer, endpoint, None, None, keys)
        .set_redirect_uri(RedirectUrl::new(redirect_url).unwrap());
    let flow = openidconnect::core::CoreAuthenticationFlow::AuthorizationCode;
    let (csrf, nonce) = (CsrfToken::new(csrf), Nonce::new(nonce));
    let request = client.authorize_url(flow, move || csrf, move || nonce);
    request.set_pkce_challenge(challenge).url().0.to_string()
}

impl OIDCClientData {
    #[verifier::type_invariant]
    closed spec fn well_formed(self) -> bool {
        &&& self.issuer_url is Some ==> parses_as_url(self.issuer_url->0@)
        &&& parses_as_url(self.authorization_endpoint@)
        &&& parses_as_url(self.token_endpoint@)
        &&& parses_as_url(self.redirect_url@)
    }

    /// The issuer, where the provider is one of OpenID Connect.
    pub closed spec fn issuer_text(self) -> Option<Seq<char>> {
        match self.issuer_url {
            Some(issuer) => Some(issuer@),
            None => None,
        }
    }

    /// The authorization endpoint.
    pub closed spec fn authorization_text(self) -> Seq<char> {
        self.authorization_endpoint@
    }

    /// The token endpoint.
    pub closed spec fn token_text(self) -> Seq<char> {
        self.token_endpoint@
    }

    /// The client id.
    pub closed spec fn client_text(self) -> Seq<char> {
        self.client_id@
    }

    /// The redirect URL.
    pub closed spec fn redirect_text(self) -> Seq<char> {
        self.redirect_url@
    }

    /// The provider's signing keys.
    pub closed spec fn keys(self) -> Seq<openidconnect::core::CoreJsonWebKey> {
        self.signing_keys@
    }

    /// The algorithms the provider signs ID tokens with.
    pub closed spec fn algs(self) -> Seq<openidconnect::core::CoreJwsSigningAlgorithm> {
        self.signing_algs@
    }

    /// The flow that a session with this data runs: OpenID Connect where
    /// there is an issuer, plain OAuth2 where there is none.
    pub open spec fn flow(self) -> FlowVariant {
        if self.issuer_text() is Some {
            FlowVariant::OidcWithIdToken
        } else {
            FlowVariant::PlainOAuth2
        }
    }

    /// Whether an authorization URL can be built for a verifier and a
    /// nonce: a challenge must be derivable from the verifier, and the flow
    /// with an ID token needs a nonce.
    pub open spec fn can_authorize(self, verifier: Seq<char>, nonce: Option<Seq<char>>) -> bool {
        &&& derivable(verifier)
        &&& self.issuer_text() is Some ==> nonce is Some
    }

    /// The authorization URL for a verifier, a CSRF token and a nonce: the
    /// one of OpenID Connect where there is an issuer, the one of OAuth2,
    /// which has no nonce, where there is none.
    pub open spec fn authorize_url_text(
        self,
        verifier: Seq<char>,
        csrf: Seq<char>,
        nonce: Option<Seq<char>>,
    ) -> Seq<char> {
        if self.issuer_text() is Some {
            oidc_authorize_url(
                self.issuer_text()->0,
                self.authorization_text(),
                self.client_text(),
                self.redirect_text(),
                verifier,
                csrf,
                nonce->0,
            )
        } else {
            oauth2_authorize_url(
                self.authorization_text(),
                self.client_text(),
                self.redirect_text(),
                verifier,
                csrf,
            )
        }
    }

    /// The query parameters that the authorization URL adds to those of the
    /// authorization endpoint.
    pub open spec fn authorize_pairs(
        self,
        verifier: Seq<char>,
        csrf: Seq<char>,
        nonce: Option<Seq<char>>,
    ) -> Seq<(Seq<char>, Seq<char>)> {
        if self.issuer_text() is Some {
            oidc_pairs(self.client_text(), self.redirect_text(), verifier, csrf, nonce->0)
        } else {
            oauth2_pairs(self.client_text(), self.redirect_text(), verifier, csrf)
        }
    }

    /// Whether a text is the authorization URL for a verifier, a CSRF token
    /// and a nonce: it is the URL that the provider's client builds, and
    /// its query holds the parameters of the authorization endpoint, then
    /// those of the request.
    pub open spec fn is_authorize_url(
        self,
        url: Seq<char>,
        verifier: Seq<char>,
        csrf: Seq<char>,
        nonce: Option<Seq<char>>,
    ) -> bool {
        &&& url == self.authorize_url_text(verifier, csrf, nonce)
        &&& parses_as_url(url)
        &&& query_pairs_of(url) == query_pairs_of(self.authorization_text())
            + self.authorize_pairs(verifier, csrf, nonce)
    }

    /// Provider data for plain OAuth2, from the endpoints as they are
    /// known.
    ///
    /// Fails with a `Configuration` error if one of the three URLs does not
    /// parse: the cause is the parser's error on the first of them, in the
    /// order authorization endpoint, token endpoint, redirect URL.
    pub fn from(
        authorization_url: String,
        token_url: String,
        client_id: String,
        redirect_url: String,
    ) -> (r: Result<OIDCClientData, AuthError>)
        ensures
            match first_fault(authorization_url@, token_url@, redirect_url@) {
                Some(cause) => r is Err && r->Err_0@ == (AuthFailure {
                    kind: AuthErrorKind::Configuration,
                    cause,
                }),
                None => r is Ok && r->Ok_0.issuer_text() is None
                    && r->Ok_0.authorization_text() == authorization_url@
                    && r->Ok_0.token_text() == token_url@ && r->Ok_0.client_text() == client_id@
                    && r->Ok_0.redirect_text() == redirect_url@ && r->Ok_0.keys().len() == 0
                    && r->Ok_0.algs().len() == 0,
            },
    {
        if let Some(cause) = parse_fault(authorization_url.as_str()) {
            return Err(AuthError::new(AuthErrorKind::Configuration, cause));
        }
        if let Some(cause) = parse_fault(token_url.as_str()) {
            return Err(AuthError::new(AuthErrorKind::Configuration, cause));
        }
        if let Some(cause) = parse_fault(redirect_url.as_str()) {
            return Err(AuthError::new(AuthErrorKind::Configuration, cause));
        }
        Ok(
            OIDCClientData {
                issuer_url: None,
                authorization_endpoint: authorization_url,
                token_endpoint: token_url,
                client_id,
                redirect_url,
                signing_keys: Vec::new(),
                signing_algs: Vec::new(),
            },
        )
    }

    /// Provider data for OpenID Connect, from the issuer and what discovery
    /// gave of it.
    ///
    /// Fails with a `Configuration` error if one of the four URLs does not
    /// parse: the cause is the parser's error on the first of them, in the
    /// order issuer, redirect URL, authorization endpoint, token endpoint.
    pub fn new(
        issuer_url: String,
        client_id: String,
        redirect_url: String,
        metadata: ProviderMetadata,
    ) -> (r: Result<OIDCClientData, AuthError>)
        ensures
            match or_fault(
                url_parse_fault(issuer_url@),
                first_fault(
                    redirect_url@,
                    metadata.authorization_endpoint@,
                    metadata.token_endpoint@,
                ),
            ) {
                Some(cause) => r is Err && r->Err_0@ == (AuthFailure {
                    kind: AuthErrorKind::Configuration,
                    cause,
                }),
                None => r is Ok && r->Ok_0.issuer_text() == Some(issuer_url@)
                    && r->Ok_0.authorization_text() == metadata.authorization_endpoint@
                    && r->Ok_0.token_text() == metadata.token_endpoint@ && r->Ok_0.client_text()
                    == client_id@ && r->Ok_0.redirect_text() == redirect_url@ && r->Ok_0.keys()
                    == metadata.signing_keys@ && r->Ok_0.algs() == metadata.signing_algs@,
            },
    {
        if let Some(cause) = parse_fault(issuer_url.as_str()) {
            return Err(AuthError::new(AuthErrorKind::Configuration, cause));
        }
        if let Some(cause) = parse_fault(redirect_url.as_str()) {
            return Err(AuthError::new(AuthErrorKind::Configuration, cause));
        }
        if let Some(cause) = parse_fault(metadata.authorization_endpoint.as_str()) {
            return Err(AuthError::new(AuthErrorKind::Configuration, cause));
        }
        if let Some(cause) = parse_fault(metadata.token_endpoint.as_str()) {
            return Err(AuthError::new(AuthErrorKind::Configuration, cause));
        }
        Ok(
            OIDCClientData {
                issuer_url: Some(issuer_url),
                authorization_endpoint: metadata.authorization_endpoint,
                token_endpoint: metadata.token_endpoint,
                client_id,
                redirect_url,
                signing_keys: metadata.signing_keys,
                signing_algs: metadata.signing_algs,
            },
        )
    }

    /// The flow that a session with this data runs.
    pub fn variant(&self) -> (v: FlowVariant)
        ensures
            v == self.flow(),
    {
        if self.issuer_url.is_some() {
            FlowVariant::OidcWithIdToken
        } else {
            FlowVariant::PlainOAuth2
        }
    }

    /// Builds the authorization URL to send the user to.
    ///
    /// There is none for a verifier that is shorter than 43 or longer than
    /// 128 bytes, nor in the flow with an ID token without a nonce. In the
    /// plain flow a nonce is not sent.
    pub fn authorize_url(&self, verifier: &str, csrf: &str, nonce: Option<&str>) -> (url: Option<
        String,
    >)
        ensures
            url is Some == self.can_authorize(
                verifier@,
                match nonce {
                    Some(n) => Some(n@),
                    None => None,
                },
            ),
            url is Some ==> self.is_authorize_url(
                url->0@,
                verifier@,
                csrf@,
                match nonce {
                    Some(n) => Some(n@),
                    None => None,
                },
            ),
    {
        proof {
            use_type_invariant(self);
        }
        let n = verifier.as_bytes().len();
        if n < VERIFIER_LEN || n > VERIFIER_MAX_LEN {
            return None;
        }
        match &self.issuer_url {
            Some(issuer) => match nonce {
                Some(nonce) => Some(
                    build_oidc_url(
                        issuer.clone(),
                        self.authorization_endpoint.clone(),
                        self.client_id.clone(),
                        self.redirect_url.clone(),
                        String::from_str(verifier),
                        String::from_str(csrf),
                        String::from_str(nonce),
                    ),
                ),
                None => None,
            },
            None => Some(
                build_oauth2_url(
                    self.authorization_endpoint.clone(),
                    self.client_id.clone(),
                    self.redirect_url.clone(),
                    String::from_str(verifier),
                    String::from_str(csrf),
                ),
            ),
        }
    }

    /// Verifies an ID token of this provider against the nonce that was
    /// sent, and hands out its claims, or what the verification objected
    /// to.
    ///
    /// Without an issuer there is nothing to verify against: the token is
    /// refused with a cause that says so. With an issuer the verification
    /// decides, and it reads the clock, so nothing is said of when it
    /// succeeds. Where it does, the claims are the token's own, and the
    /// token names the given nonce, this provider's issuer and this client.
    pub fn verify(&self, id_token: &str, nonce: &str) -> (r: Result<IdTokenClaims, String>)
        ensures
            self.issuer_text() is None ==> r is Err && r->Err_0@ == no_issuer_cause(),
            r is Ok ==> self.issuer_text() is Some && bears_out(
                id_token@,
                nonce@,
                self.issuer_text()->0,
                self.client_text(),
                r->Ok_0@,
            ),
    {
        proof {
            use_type_invariant(self);
        }
        match &self.issuer_url {
            Some(issuer) => verify_id_token(
                id_token,
                String::from_str(nonce),
                issuer.clone(),
                self.client_id.clone(),
                &self.signing_keys,
                &self.signing_algs,
            ),
            None => Err(String::from_str("No issuer to verify the id token against!")),
        }
    }

    /// The issuer, where the provider is one of OpenID Connect.
    pub fn issuer_url(&self) -> (r: Option<&str>)
        ensures
            match r {
                Some(issuer) => self.issuer_text() == Some(issuer@),
                None => self.issuer_text() is None,
            },
    {
        match &self.issuer_url {
            Some(issuer) => Some(issuer.as_str()),
            None => None,
        }
    }

    /// The authorization endpoint.
    pub fn authorization_endpoint(&self) -> (r: &str)
        ensures
            r@ == self.authorization_text(),
    {
        self.authorization_endpoint.as_str()
    }

    /// The token endpoint.
    pub fn token_endpoint(&self) -> (r: &str)
        ensures
            r@ == self.token_text(),
    {
        self.token_endpoint.as_str()
    }

    /// The client id.
    pub fn client_id(&self) -> (r: &str)
        ensures
            r@ == self.client_text(),
    {
        self.client_id.as_str()
    }

    /// The redirect URL.
    pub fn redirect_url(&self) -> (r: &str)
        ensures
            r@ == self.redirect_text(),
    {
        self.redirect_url.as_str()
    }

    /// The provider's signing keys.
    pub fn signing_keys(&self) -> (r: &Vec<openidconnect::core::CoreJsonWebKey>)
        ensures
            r@ == self.keys(),
    {
        &self.signing_keys
    }

    /// The algorithms the provider signs ID tokens with.
    pub fn signing_algs(&self) -> (r: &Vec<openidconnect::core::CoreJwsSigningAlgorithm>)
        ensures
            r@ == self.algs(),
    {
        &self.signing_algs
    }
}

} // verus!
