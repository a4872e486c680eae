//! The session: one authorization attempt at a time, from the URL that the
//! user is sent to, over the redirect back, to the tokens.
//!
//! An attempt has two network round trips, and the caller makes both. The
//! session decides before and after each:
//!
//! * `init_authentication` makes fresh challenge material, writes it to the
//!   store and gives the URL to send the user to;
//! * `exchange_token` takes the `code` and `state` of the redirect, uses up
//!   the challenge material and says what to send to the token endpoint;
//! * `complete_exchange` takes what the token endpoint answered and keeps
//!   the tokens if they are in order.
//!
//! Challenge material is used for one attempt only: `exchange_token` removes
//! it from the session and from the store before it looks at the `state`.

use vstd::prelude::*;
use crate::client_data::FlowVariant;
use crate::client_data::OIDCClientData;
use crate::error::AuthError;
use crate::error::AuthErrorKind;
use crate::error::AuthFailure;
use crate::pkce::byte_len;
use crate::pkce::empty_store;
use crate::pkce::loaded;
use crate::pkce::stored;
use crate::pkce::url_safe;
use crate::pkce::PkceView;
use crate::pkce::StoredState;
use crate::pkce::StoredStateView;
use crate::pkce::PKCE;
use crate::pkce::VERIFIER_LEN;
use crate::response::malformed_cause;
use crate::response::parse_response;
use crate::response::response_cause;
use crate::response::response_of;
use crate::tokens::accepted_view;
use crate::tokens::bears_out;
use crate::tokens::judge;
use crate::tokens::judged;
use crate::tokens::opt_text;
use crate::tokens::str_eq;
use crate::tokens::take_plain;
use crate::tokens::taken_plain;
use crate::tokens::verdict_view;
use crate::tokens::verification_view;
use crate::tokens::ExchangeOutcome;
use crate::tokens::ExchangeOutcomeView;
use crate::tokens::IdTokenClaimsView;
use crate::tokens::TokenSet;
use crate::tokens::TokenSetView;

verus! {

/// Where an attempt stands.
#[derive(Clone, Copy, Debug, PartialEq, Eq, Structural)]
pub enum SessionState {
    /// No attempt was made, or the session was reset.
    Idle,
    /// The user was sent to the provider; the redirect is awaited.
    Initiated,
    /// The redirect came back in order; the token endpoint's answer is
    /// awaited.
    Exchanging,
    /// The last attempt ended with tokens.
    Completed,
    /// The last attempt was abandoned.
    Failed,
}

/// What to send to the token endpoint: the code of the redirect and the
/// verifier of the attempt.
#[derive(Debug)]
pub struct ExchangeRequest {
    pub code: String,
    pub verifier: String,
}

/// An `ExchangeRequest` as contracts speak of it.
pub struct ExchangeRequestView {
    pub code: Seq<char>,
    pub verifier: Seq<char>,
}

impl View for ExchangeRequest {
    type V = ExchangeRequestView;

    open spec fn view(&self) -> ExchangeRequestView {
        ExchangeRequestView { code: self.code@, verifier: self.verifier@ }
    }
}

/// A session as contracts speak of it.
pub struct SessionView {
    /// The challenge material of the attempt that awaits its redirect.
    pub challenge: Option<PkceView>,
    /// The nonce of the attempt that awaits the token endpoint's answer.
    pub pending: Option<Option<Seq<char>>>,
    /// The tokens of the last attempt that ended with tokens.
    pub tokens: Option<TokenSetView>,
    /// Whether the last attempt was abandoned.
    pub failed: bool,
}

/// The session in which nothing has happened.
pub open spec fn idle() -> SessionView {
    SessionView { challenge: None, pending: None, tokens: None, failed: false }
}

/// Where the attempt of a session stands.
pub open spec fn state_of(session: SessionView) -> SessionState {
    if session.challenge is Some {
        SessionState::Initiated
    } else if session.pending is Some {
        SessionState::Exchanging
    } else if session.failed {
        SessionState::Failed
    } else if session.tokens is Some {
        SessionState::Completed
    } else {
        SessionState::Idle
    }
}

/// What holds of challenge material that was just generated: the verifier
/// is `VERIFIER_LEN` characters of one byte each, the verifier, the CSRF
/// token and the nonce are made of the URL-safe base64 alphabet, and there
/// is a nonce exactly in the flow that has one.
pub open spec fn fresh_material(material: PkceView, require_nonce: bool) -> bool {
    &&& material.verifier.len() == VERIFIER_LEN
    &&& byte_len(material.verifier) == VERIFIER_LEN
    &&& url_safe(material.verifier)
    &&& url_safe(material.csrf)
    &&& material.nonce is Some == require_nonce
    &&& material.nonce is Some ==> url_safe(material.nonce->0)
}

/// The session after a fresh attempt was started with the given material.
/// Tokens of an earlier attempt stay.
pub open spec fn initiated(session: SessionView, material: PkceView) -> SessionView {
    SessionView { challenge: Some(material), pending: None, tokens: session.tokens, failed: false }
}

/// The cause given where nothing is there to complete.
pub open spec fn not_initiated_cause() -> Seq<char> {
    "No authentication process was initiated!"@
}

/// The cause given where the state of the response is not the CSRF token.
pub open spec fn csrf_cause() -> Seq<char> {
    "Cross-Site Request Forgery detected! The returned state did not match!"@
}

/// The challenge material that a redirect is held against: the one in the
/// session, or else the one in the store, if a store is given.
pub open spec fn material_at_hand(
    session: SessionView,
    require_nonce: bool,
    store: Option<StoredStateView>,
) -> Result<PkceView, AuthFailure> {
    match session.challenge {
        Some(material) => Ok(material),
        None => match store {
            Some(store) => loaded(store, require_nonce),
            None => Err(
                AuthFailure {
                    kind: AuthErrorKind::NoActiveChallenge,
                    cause: not_initiated_cause(),
                },
            ),
        },
    }
}

/// The store after its challenge material was used up: emptied, if there
/// is a store.
pub open spec fn used_up(store: Option<StoredStateView>) -> Option<StoredStateView> {
    match store {
        Some(_) => Some(empty_store()),
        None => None,
    }
}

/// What `exchange_token` leaves: the session, the store if one was given,
/// and the result.
pub struct Began {
    pub session: SessionView,
    pub store: Option<StoredStateView>,
    pub result: Result<ExchangeRequestView, AuthFailure>,
}

/// What becomes of a redirect with the given code and state.
///
/// Without challenge material nothing changes. With it, the material is
/// used up: it leaves the session, and the store is emptied. Then the state
/// must be the CSRF token of the material, else the attempt is abandoned.
pub open spec fn began(
    session: SessionView,
    require_nonce: bool,
    code: Seq<char>,
    state: Seq<char>,
    store: Option<StoredStateView>,
) -> Began {
    match material_at_hand(session, require_nonce, store) {
        Err(failure) => Began { session, store, result: Err(failure) },
        Ok(material) => if material.csrf == state {
            Began {
                session: SessionView {
                    challenge: None,
                    pending: Some(material.nonce),
                    tokens: session.tokens,
                    failed: false,
                },
                store: used_up(store),
                result: Ok(ExchangeRequestView { code, verifier: material.verifier }),
            }
        } else {
            Began {
                session: SessionView {
                    challenge: None,
                    pending: None,
                    tokens: session.tokens,
                    failed: true,
                },
                store: used_up(store),
                result: Err(
                    AuthFailure { kind: AuthErrorKind::CsrfMismatch, cause: csrf_cause() },
                ),
            }
        },
    }
}

/// The token set that the answer of the token endpoint gives, for the
/// outcome of the ID token's verification. The verification counts only in
/// the flow with an ID token, and there only for an answer that has one.
pub open spec fn verdict(
    flow: FlowVariant,
    outcome: ExchangeOutcomeView,
    verification: Result<IdTokenClaimsView, Seq<char>>,
) -> Result<TokenSetView, AuthFailure> {
    match outcome {
        ExchangeOutcomeView::Failed(cause) => Err(
            AuthFailure { kind: AuthErrorKind::Exchange, cause },
        ),
        ExchangeOutcomeView::Answered(response) => match flow {
            FlowVariant::PlainOAuth2 => Ok(taken_plain(response)),
            FlowVariant::OidcWithIdToken => judged(response, verification),
        },
    }
}

/// What `complete_exchange` leaves: the session and the result.
pub struct Concluded {
    pub session: SessionView,
    pub result: Result<(), AuthFailure>,
}

/// What becomes of the answer of the token endpoint.
///
/// Where no exchange is awaited, nothing changes. Else the attempt ends:
/// with the tokens, which replace those of an earlier attempt, or abandoned,
/// with the tokens of an earlier attempt as they were.
pub open spec fn concluded(
    session: SessionView,
    flow: FlowVariant,
    outcome: ExchangeOutcomeView,
    verification: Result<IdTokenClaimsView, Seq<char>>,
) -> Concluded {
    if session.pending is None {
        Concluded {
            session,
            result: Err(
                AuthFailure {
                    kind: AuthErrorKind::NoActiveChallenge,
                    cause: not_initiated_cause(),
                },
            ),
        }
    } else {
        match verdict(flow, outcome, verification) {
            Ok(tokens) => Concluded {
                session: SessionView {
                    challenge: session.challenge,
                    pending: None,
                    tokens: Some(tokens),
                    failed: false,
                },
                result: Ok(()),
            },
            Err(failure) => Concluded {
                session: SessionView {
                    challenge: session.challenge,
                    pending: None,
                    tokens: session.tokens,
                    failed: true,
                },
                result: Err(failure),
            },
        }
    }
}

/// Whether the outcome of an ID token's verification is one that the
/// session can have got for this answer. A failure always is. A success is
/// one only if an exchange was awaited and the answer has an ID token, and
/// if the claims are borne out by that token for the nonce of the attempt
/// and for the issuer and the client id of the provider.
pub open spec fn verified_for(
    session: SessionView,
    provider: OIDCClientData,
    outcome: ExchangeOutcomeView,
    verification: Result<IdTokenClaimsView, Seq<char>>,
) -> bool {
    verification is Ok ==> {
        &&& outcome is Answered
        &&& outcome->Answered_0.id_token is Some
        &&& session.pending is Some
        &&& session.pending->0 is Some
        &&& provider.issuer_text() is Some
        &&& bears_out(
            outcome->Answered_0.id_token->0,
            session.pending->0->0,
            provider.issuer_text()->0,
            provider.client_text(),
            verification->Ok_0,
        )
    }
}

/// A request, or the error, as contracts speak of it.
pub open spec fn request_view(r: Result<ExchangeRequest, AuthError>) -> Result<
    ExchangeRequestView,
    AuthFailure,
> {
    match r {
        Ok(request) => Ok(request@),
        Err(e) => Err(e@),
    }
}

/// Whether a flow has a nonce and an ID token.
pub open spec fn has_nonce(flow: FlowVariant) -> bool {
    flow == FlowVariant::OidcWithIdToken
}

/// The session of one client at one provider.
#[derive(Debug)]
pub struct AuthManager {
    client: OIDCClientData,
    pkce: Option<PKCE>,
    pending: Option<Option<String>>,
    tokens: Option<TokenSet>,
    failed: bool,
}

impl View for AuthManager {
    type V = SessionView;

    closed spec fn view(&self) -> SessionView {
        SessionView {
            challenge: match self.pkce {
                Some(material) => Some(material@),
                None => None,
            },
            pending: match self.pending {
                Some(nonce) => Some(opt_text(nonce)),
                None => None,
            },
            tokens: match self.tokens {
                Some(tokens) => Some(tokens@),
                None => None,
            },
            failed: self.failed,
        }
    }
}

impl AuthManager {
    #[verifier::type_invariant]
    closed spec fn well_formed(self) -> bool {
        has_nonce(self.client.flow()) ==> {
            &&& self.pkce is Some ==> self.pkce->0.nonce is Some
            &&& self.pending is Some ==> self.pending->0 is Some
        }
    }

    /// The provider data that the session was made with.
    pub closed spec fn provider(self) -> OIDCClientData {
        self.client
    }

    /// A session for the given provider data, in which nothing has
    /// happened.
    pub fn new(client_data: OIDCClientData) -> (session: AuthManager)
        ensures
            session@ == idle(),
            session.provider() == client_data,
    {
        AuthManager { client: client_data, pkce: None, pending: None, tokens: None, failed: false }
    }

    /// Writes the challenge material of the session to the store, if there
    /// is any.
    pub fn store(&self, storage: &mut StoredState)
        ensures
            final(storage)@ == (match self@.challenge {
                Some(material) => stored(material, old(storage)@),
                None => old(storage)@,
            }),
    {
        match &self.pkce {
            Some(material) => material.store(storage),
            None => {},
        }
    }

    /// Loads the challenge material of an attempt from the store into the
    /// session. If the store holds none, the session stays as it is.
    pub fn load(&mut self, storage: &StoredState) -> (r: Result<(), AuthError>)
        ensures
            final(self).provider() == old(self).provider(),
            match loaded(storage@, has_nonce(old(self).provider().flow())) {
                Ok(material) => r is Ok && final(self)@ == (SessionView {
                    challenge: Some(material),
                    ..old(self)@
                }),
                Err(failure) => r is Err && r->Err_0@ == failure && final(self)@ == old(self)@,
            },
    {
        proof {
            use_type_invariant(&*self);
        }
        let require_nonce = match self.client.variant() {
            FlowVariant::OidcWithIdToken => true,
            FlowVariant::PlainOAuth2 => false,
        };
        match PKCE::load_from(storage, require_nonce) {
            Ok(material) => {
                self.pkce = Some(material);
                Ok(())
            },
            Err(e) => Err(e),
        }
    }

    /// Starts a fresh attempt and gives the URL to send the user to.
    ///
    /// Fresh challenge material replaces that of an earlier attempt, in the
    /// session and in the store. The verifier is `VERIFIER_LEN` bytes long
    /// and made of the URL-safe base64 alphabet, and there is a nonce
    /// exactly in the flow with an ID token. The URL is the authorization
    /// URL of the provider for this material: its query holds the
    /// parameters of the authorization endpoint, then those of the request.
    /// Tokens of an earlier attempt stay.
    pub fn init_authentication(&mut self, storage: &mut StoredState) -> (url: String)
        ensures
            final(self).provider() == old(self).provider(),
            final(self)@.challenge is Some,
            final(self)@ == initiated(old(self)@, final(self)@.challenge->0),
            final(storage)@ == stored(final(self)@.challenge->0, old(storage)@),
            fresh_material(final(self)@.challenge->0, has_nonce(old(self).provider().flow())),
            old(self).provider().is_authorize_url(
                url@,
                final(self)@.challenge->0.verifier,
                final(self)@.challenge->0.csrf,
                final(self)@.challenge->0.nonce,
            ),
    {
        proof {
            use_type_invariant(&*self);
        }
        let require_nonce = match self.client.variant() {
            FlowVariant::OidcWithIdToken => true,
            FlowVariant::PlainOAuth2 => false,
        };
        let (material, _challenge) = PKCE::generate(require_nonce);
        let built = match &material.nonce {
            Some(nonce) => self.client.authorize_url(
                material.verifier.as_str(),
                material.csrf.as_str(),
                Some(nonce.as_str()),
            ),
            None => self.client.authorize_url(
                material.verifier.as_str(),
                material.csrf.as_str(),
                None,
            ),
        };
        let url = built.unwrap();
        material.store(storage);
        self.pkce = Some(material);
        self.pending = None;
        self.failed = false;
        url
    }

    /// Takes the code and the state of the redirect, and says what to send
    /// to the token endpoint.
    ///
    /// The challenge material is the one in the session, or else the one in
    /// the store, if a store is given. Without any, the error says so and
    /// nothing changes. With it, the material is used up, in the session
    /// and in the store, whatever follows. If the state is not its CSRF
    /// token, the attempt is abandoned with a `CsrfMismatch`. Else the
    /// request holds the code and the verifier, and the session awaits
    /// `complete_exchange`.
    pub fn exchange_token(
        &mut self,
        code: String,
        state: String,
        storage: Option<&mut StoredState>,
    ) -> (r: Result<ExchangeRequest, AuthError>)
        ensures
            final(self).provider() == old(self).provider(),
            (Began {
                session: final(self)@,
                store: match storage {
                    Some(s) => Some(final(s)@),
                    None => None,
                },
                result: request_view(r),
            }) == began(
                old(self)@,
                has_nonce(old(self).provider().flow()),
                code@,
                state@,
                match storage {
                    Some(s) => Some(s@),
                    None => None,
                },
            ),
    {
        proof {
            use_type_invariant(&*self);
        }
        let require_nonce = match self.client.variant() {
            FlowVariant::OidcWithIdToken => true,
            FlowVariant::PlainOAuth2 => false,
        };
        let held = match &self.pkce {
            Some(held) => Some(
                PKCE::new(
                    held.verifier.clone(),
                    held.csrf.clone(),
                    match &held.nonce {
                        Some(nonce) => Some(nonce.clone()),
                        None => None,
                    },
                ),
            ),
            None => None,
        };
        let material = match storage {
            Some(store) => {
                let material = match held {
                    Some(material) => material,
                    None => match PKCE::load_from(store, require_nonce) {
                        Ok(material) => material,
                        Err(e) => {
                            return Err(e);
                        },
                    },
                };
                store.clear();
                material
            },
            None => match held {
                Some(material) => material,
                None => {
                    return Err(
                        AuthError::of(
                            AuthErrorKind::NoActiveChallenge,
                            "No authentication process was initiated!",
                        ),
                    );
                },
            },
        };
        self.pkce = None;
        let (verifier, csrf, nonce) = material.destructure();
        if !str_eq(csrf.as_str(), state.as_str()) {
            self.pending = None;
            self.failed = true;
            return Err(
                AuthError::of(
                    AuthErrorKind::CsrfMismatch,
                    "Cross-Site Request Forgery detected! The returned state did not match!",
                ),
            );
        }
        self.pending = Some(nonce);
        self.failed = false;
        Ok(ExchangeRequest { code, verifier })
    }

    /// Ends the attempt with a verdict on the tokens: keeps them, or
    /// abandons the attempt.
    fn settle(&mut self, judgement: Result<TokenSet, AuthError>) -> (r: Result<(), AuthError>)
        requires
            old(self)@.pending is Some,
        ensures
            final(self).provider() == old(self).provider(),
            match judgement {
                Ok(tokens) => r is Ok && final(self)@ == (SessionView {
                    pending: None,
                    tokens: Some(tokens@),
                    failed: false,
                    ..old(self)@
                }),
                Err(e) => r is Err && r->Err_0@ == e@ && final(self)@ == (SessionView {
                    pending: None,
                    failed: true,
                    ..old(self)@
                }),
            },
    {
        proof {
            use_type_invariant(&*self);
        }
        self.pending = None;
        match judgement {
            Ok(tokens) => {
                self.tokens = Some(tokens);
                self.failed = false;
                Ok(())
            },
            Err(e) => {
                self.failed = true;
                Err(e)
            },
        }
    }

    /// Takes what the token endpoint answered, and ends the attempt.
    ///
    /// Where no exchange is awaited, the error says so and nothing changes.
    /// A failed exchange abandons the attempt with the cause as it came. In
    /// the plain flow the tokens are kept as they came. In the flow with an
    /// ID token, the ID token must be there and verify against the nonce of
    /// the attempt, and the access token must hash to what the claims say,
    /// if they say it; then the tokens and the claims are kept. The
    /// verification reads the clock: the contract holds for whatever it
    /// gave, and a success that it gave is one for the ID token of the
    /// answer, the nonce of the attempt and the issuer and client id of the
    /// provider.
    pub fn complete_exchange(&mut self, outcome: ExchangeOutcome) -> (r: Result<(), AuthError>)
        ensures
            final(self).provider() == old(self).provider(),
            exists|verification: Result<IdTokenClaimsView, Seq<char>>|
                (Concluded { session: final(self)@, result: verdict_view(r) }) == #[trigger] concluded(
                    old(self)@,
                    old(self).provider().flow(),
                    outcome@,
                    verification,
                ) && verified_for(old(self)@, old(self).provider(), outcome@, verification),
    {
        proof {
            use_type_invariant(&*self);
        }
        let ghost none: Result<IdTokenClaimsView, Seq<char>> = Err(Seq::empty());
        let nonce = match &self.pending {
            Some(Some(nonce)) => Some(nonce.clone()),
            Some(None) => None,
            None => {
                proof {
                    assert((Concluded { session: self@, result: Err(
                        AuthFailure {
                            kind: AuthErrorKind::NoActiveChallenge,
                            cause: not_initiated_cause(),
                        },
                    ) }) == concluded(old(self)@, old(self).provider().flow(), outcome@, none));
                }
                return Err(
                    AuthError::of(
                        AuthErrorKind::NoActiveChallenge,
                        "No authentication process was initiated!",
                    ),
                );
            },
        };
        let ghost before = self@;
        let ghost flow = self.provider().flow();
        let ghost witness;
        let judgement = match outcome {
            ExchangeOutcome::Failed(cause) => {
                proof {
                    witness = none;
                }
                Err(AuthError::new(AuthErrorKind::Exchange, cause))
            },
            ExchangeOutcome::Answered(response) => match self.client.variant() {
                FlowVariant::PlainOAuth2 => {
                    proof {
                        witness = none;
                    }
                    Ok(take_plain(response))
                },
                FlowVariant::OidcWithIdToken => {
                    let verification = match (&response.id_token, &nonce) {
                        (Some(id_token), Some(nonce)) => self.client.verify(
                            id_token.as_str(),
                            nonce.as_str(),
                        ),
                        _ => Err(String::new()),
                    };
                    proof {
                        witness = verification_view(verification);
                    }
                    judge(response, verification)
                },
            },
        };
        proof {
            assert(accepted_view(judgement) == verdict(flow, outcome@, witness));
        }
        let r = self.settle(judgement);
        proof {
            assert((Concluded { session: self@, result: verdict_view(r) }) == concluded(
                before,
                flow,
                outcome@,
                witness,
            ));
            assert(verified_for(before, self.provider(), outcome@, witness));
        }
        r
    }

    /// Reads the code and the state out of the redirect response.
    pub fn get_response(url: &str) -> (r: Result<(String, String), AuthError>)
        ensures
            match r {
                Ok(found) => response_of(url@) == Ok::<(Seq<char>, Seq<char>), AuthErrorKind>(
                    (found.0@, found.1@),
                ),
                Err(e) => response_of(url@) == Err::<(Seq<char>, Seq<char>), AuthErrorKind>(
                    e.kind,
                ) && e.cause@ == (if e.kind == AuthErrorKind::MalformedResponse {
                    malformed_cause(url@)
                } else {
                    response_cause(e.kind)
                }),
            },
    {
        parse_response(url)
    }

    /// Forgets the attempt and the tokens.
    pub fn reset(&mut self)
        ensures
            final(self).provider() == old(self).provider(),
            final(self)@ == idle(),
    {
        proof {
            use_type_invariant(&*self);
        }
        self.pkce = None;
        self.pending = None;
        self.tokens = None;
        self.failed = false;
    }

    /// Where the attempt stands.
    pub fn state(&self) -> (s: SessionState)
        ensures
            s == state_of(self@),
    {
        if self.pkce.is_some() {
            SessionState::Initiated
        } else if self.pending.is_some() {
            SessionState::Exchanging
        } else if self.failed {
            SessionState::Failed
        } else if self.tokens.is_some() {
            SessionState::Completed
        } else {
            SessionState::Idle
        }
    }

    /// The tokens of the last attempt that ended with tokens.
    pub fn tokens(&self) -> (t: Option<&TokenSet>)
        ensures
            match t {
                Some(tokens) => self@.tokens == Some(tokens@),
                None => self@.tokens is None,
            },
    {
        self.tokens.as_ref()
    }

    /// The provider data that the session was made with.
    pub fn client_data(&self) -> (data: &OIDCClientData)
        ensures
            *data == self.provider(),
    {
        &self.client
    }
}

} // verus!
