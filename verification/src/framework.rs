//! A session together with the image of its store: what a host drives.
//!
//! The host reads the store into the image before a call and writes the
//! image back after it; between the two calls of an attempt it makes the
//! exchange at the token endpoint.

use vstd::prelude::*;
use crate::auth_manager::began;
use crate::auth_manager::concluded;
use crate::auth_manager::fresh_material;
use crate::auth_manager::has_nonce;
use crate::auth_manager::idle;
use crate::auth_manager::initiated;
use crate::auth_manager::request_view;
use crate::auth_manager::verified_for;
use crate::auth_manager::AuthManager;
use crate::auth_manager::Began;
use crate::auth_manager::Concluded;
use crate::auth_manager::ExchangeRequest;
use crate::auth_manager::SessionView;
use crate::client_data::OIDCClientData;
use crate::error::AuthError;
use crate::error::AuthErrorKind;
use crate::error::AuthFailure;
use crate::pkce::stored;
use crate::pkce::StoredState;
use crate::pkce::StoredStateView;
use crate::response::malformed_cause;
use crate::response::parse_response;
use crate::response::response_cause;
use crate::response::response_of;
use crate::tokens::verdict_view;
use crate::tokens::ExchangeOutcome;
use crate::tokens::IdTokenClaimsView;

verus! {

/// The error for a redirect response that cannot be read.
pub open spec fn unreadable(response: Seq<char>, kind: AuthErrorKind) -> AuthFailure {
    AuthFailure {
        kind,
        cause: if kind == AuthErrorKind::MalformedResponse {
            malformed_cause(response)
        } else {
            response_cause(kind)
        },
    }
}

/// What becomes of a redirect response: it is read first, and an
/// unreadable one changes nothing; then its code and state are taken as
/// `began` says, with the store at hand.
pub open spec fn authenticated(
    session: SessionView,
    require_nonce: bool,
    response: Seq<char>,
    store: StoredStateView,
) -> Began {
    match response_of(response) {
        Err(kind) => Began { session, store: Some(store), result: Err(unreadable(response, kind)) },
        Ok(found) => began(session, require_nonce, found.0, found.1, Some(store)),
    }
}

/// A session and the image of its store.
#[derive(Debug)]
pub struct Framework {
    session: StoredState,
    auth: AuthManager,
}

impl Framework {
    /// The session, as contracts speak of it.
    pub closed spec fn session_view(self) -> SessionView {
        self.auth@
    }

    /// The image of the store, as contracts speak of it.
    pub closed spec fn store_view(self) -> StoredStateView {
        self.session@
    }

    /// The provider data that the session was made with.
    pub closed spec fn provider(self) -> OIDCClientData {
        self.auth.provider()
    }

    /// A fresh session for the given provider data, over the given image of
    /// the store.
    pub fn new(client_data: OIDCClientData, storage: StoredState) -> (framework: Framework)
        ensures
            framework.session_view() == idle(),
            framework.store_view() == storage@,
            framework.provider() == client_data,
    {
        Framework { auth: AuthManager::new(client_data), session: storage }
    }

    /// Starts a fresh attempt and gives the URL to send the user to.
    pub fn initiate_authentication(&mut self) -> (url: String)
        ensures
            final(self).provider() == old(self).provider(),
            final(self).session_view().challenge is Some,
            final(self).session_view() == initiated(
                old(self).session_view(),
                final(self).session_view().challenge->0,
            ),
            final(self).store_view() == stored(
                final(self).session_view().challenge->0,
                old(self).store_view(),
            ),
            fresh_material(
                final(self).session_view().challenge->0,
                has_nonce(old(self).provider().flow()),
            ),
            old(self).provider().is_authorize_url(
                url@,
                final(self).session_view().challenge->0.verifier,
                final(self).session_view().challenge->0.csrf,
                final(self).session_view().challenge->0.nonce,
            ),
    {
        self.auth.init_authentication(&mut self.session)
    }

    /// Takes the redirect response, and says what to send to the token
    /// endpoint.
    ///
    /// The response is read first: one that cannot be read is reported and
    /// changes nothing. Then the challenge material is used up and the
    /// state is held against its CSRF token.
    pub fn authenticate(&mut self, response: &str) -> (r: Result<ExchangeRequest, AuthError>)
        ensures
            final(self).provider() == old(self).provider(),
            (Began {
                session: final(self).session_view(),
                store: Some(final(self).store_view()),
                result: request_view(r),
            }) == authenticated(
                old(self).session_view(),
                has_nonce(old(self).provider().flow()),
                response@,
                old(self).store_view(),
            ),
    {
        let (code, state) = match parse_response(response) {
            Ok(found) => found,
            Err(e) => {
                return Err(e);
            },
        };
        self.auth.exchange_token(code, state, Some(&mut self.session))
    }

    /// Takes what the token endpoint answered, and ends the attempt. The
    /// store is not touched.
    pub fn complete(&mut self, outcome: ExchangeOutcome) -> (r: Result<(), AuthError>)
        ensures
            final(self).provider() == old(self).provider(),
            final(self).store_view() == old(self).store_view(),
            exists|verification: Result<IdTokenClaimsView, Seq<char>>|
                (Concluded { session: final(self).session_view(), result: verdict_view(r) })
                    == #[trigger] concluded(
                    old(self).session_view(),
                    old(self).provider().flow(),
                    outcome@,
                    verification,
                ) && verified_for(
                    old(self).session_view(),
                    old(self).provider(),
                    outcome@,
                    verification,
                ),
    {
        self.auth.complete_exchange(outcome)
    }

    /// The session.
    pub fn auth(&self) -> (auth: &AuthManager)
        ensures
            auth@ == self.session_view(),
            auth.provider() == self.provider(),
    {
        &self.auth
    }

    /// The image of the store, to write back.
    pub fn storage(&self) -> (storage: &StoredState)
        ensures
            storage@ == self.store_view(),
    {
        &self.session
    }

    /// Replaces the image of the store by what was read from it.
    pub fn refresh(&mut self, storage: StoredState)
        ensures
            final(self).provider() == old(self).provider(),
            final(self).session_view() == old(self).session_view(),
            final(self).store_view() == storage@,
    {
        self.session = storage;
    }
}

} // verus!
