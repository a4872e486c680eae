//! What holds of a session over more than one call.

use vstd::prelude::*;
use crate::auth_manager::began;
use crate::auth_manager::concluded;
use crate::auth_manager::idle;
use crate::auth_manager::initiated;
use crate::auth_manager::material_at_hand;
use crate::auth_manager::state_of;
use crate::auth_manager::used_up;
use crate::auth_manager::verified_for;
use crate::auth_manager::SessionState;
use crate::auth_manager::SessionView;
use crate::client_data::oauth2_pairs;
use crate::client_data::FlowVariant;
use crate::client_data::OIDCClientData;
use crate::error::AuthErrorKind;
use crate::error::AuthFailure;
use crate::framework::authenticated;
use crate::pkce::empty_store;
use crate::pkce::loaded;
use crate::pkce::s256_challenge;
use crate::pkce::stored;
use crate::pkce::PkceView;
use crate::pkce::StoredStateView;
use crate::response::last_value;
use crate::response::last_value_after_push;
use crate::response::last_value_of_joined;
use crate::response::parses_as_url;
use crate::response::query_pairs_of;
use crate::response::response_of;
use crate::tokens::payload_of;
use crate::tokens::token_hash_under;
use crate::tokens::ExchangeOutcomeView;
use crate::tokens::IdTokenClaimsView;
use crate::tokens::TokenResponseView;

verus! {

/// Material that holds a nonce comes back from the store as it was
/// written, whatever the store held before and whichever flow loads it.
pub proof fn load_returns_what_was_stored(
    material: PkceView,
    before: StoredStateView,
    require_nonce: bool,
)
    requires
        material.nonce is Some,
    ensures
        loaded(stored(material, before), require_nonce) == Ok::<PkceView, AuthFailure>(material),
{
}

/// Material without a nonce comes back as it was written in the flow that
/// has none, provided the store held no nonce before.
pub proof fn load_returns_what_was_stored_without_nonce(
    material: PkceView,
    before: StoredStateView,
)
    requires
        material.nonce is None,
        !(before.nonce is Value),
    ensures
        loaded(stored(material, before), false) == Ok::<PkceView, AuthFailure>(material),
{
}

/// Before any attempt, with nothing in the store or with no store at all,
/// a redirect is answered with `NoActiveChallenge`, in both flows, and
/// nothing changes.
pub proof fn redirect_before_initiation_is_refused(
    session: SessionView,
    require_nonce: bool,
    code: Seq<char>,
    state: Seq<char>,
    store: Option<StoredStateView>,
)
    requires
        session.challenge is None,
        store is None || store == Some(empty_store()),
    ensures
        began(session, require_nonce, code, state, store).result is Err,
        began(session, require_nonce, code, state, store).result->Err_0.kind
            == AuthErrorKind::NoActiveChallenge,
        began(session, require_nonce, code, state, store).session == session,
        began(session, require_nonce, code, state, store).store == store,
{
}

/// The same of a redirect response that can be read: before any attempt,
/// with nothing in the store, it is answered with `NoActiveChallenge`.
pub proof fn response_before_initiation_is_refused(
    session: SessionView,
    require_nonce: bool,
    response: Seq<char>,
)
    requires
        session.challenge is None,
        response_of(response) is Ok,
    ensures
        authenticated(session, require_nonce, response, empty_store()).result is Err,
        authenticated(session, require_nonce, response, empty_store()).result->Err_0.kind
            == AuthErrorKind::NoActiveChallenge,
        authenticated(session, require_nonce, response, empty_store()).session == session,
{
}

/// Before any exchange is awaited, an answer of the token endpoint is
/// refused with `NoActiveChallenge`, in both flows, and nothing changes.
pub proof fn answer_before_exchange_is_refused(
    session: SessionView,
    flow: FlowVariant,
    outcome: ExchangeOutcomeView,
    verification: Result<IdTokenClaimsView, Seq<char>>,
)
    requires
        session.pending is None,
    ensures
        concluded(session, flow, outcome, verification).result is Err,
        concluded(session, flow, outcome, verification).result->Err_0.kind
            == AuthErrorKind::NoActiveChallenge,
        concluded(session, flow, outcome, verification).session == session,
{
}

/// A state that is not the CSRF token of the challenge material abandons
/// the attempt with `CsrfMismatch` and uses the material up: it is gone
/// from the session and from the store, and the same redirect once more is
/// answered with `NoActiveChallenge`.
pub proof fn csrf_mismatch_uses_up_the_challenge(
    session: SessionView,
    require_nonce: bool,
    code: Seq<char>,
    state: Seq<char>,
    store: Option<StoredStateView>,
)
    requires
        material_at_hand(session, require_nonce, store) is Ok,
        material_at_hand(session, require_nonce, store)->Ok_0.csrf != state,
    ensures
        ({
            let first = began(session, require_nonce, code, state, store);
            let second = began(first.session, require_nonce, code, state, first.store);
            &&& first.result is Err
            &&& first.result->Err_0.kind == AuthErrorKind::CsrfMismatch
            &&& first.session.challenge is None
            &&& first.session.pending is None
            &&& first.store == used_up(store)
            &&& state_of(first.session) == SessionState::Failed
            &&& second.result is Err
            &&& second.result->Err_0.kind == AuthErrorKind::NoActiveChallenge
        }),
{
}

/// Challenge material serves one redirect: whatever the first one gave,
/// once material was at hand a second redirect is answered with
/// `NoActiveChallenge`.
pub proof fn challenge_serves_one_redirect(
    session: SessionView,
    require_nonce: bool,
    code: Seq<char>,
    state: Seq<char>,
    store: Option<StoredStateView>,
    code_again: Seq<char>,
    state_again: Seq<char>,
)
    requires
        material_at_hand(session, require_nonce, store) is Ok,
    ensures
        ({
            let first = began(session, require_nonce, code, state, store);
            let second = began(
                first.session,
                require_nonce,
                code_again,
                state_again,
                first.store,
            );
            &&& second.result is Err
            &&& second.result->Err_0.kind == AuthErrorKind::NoActiveChallenge
        }),
{
}

/// A redirect response never gives tokens, and a refused one is refused
/// again: the tokens of the session are the same after a response and after
/// the same response once more, and where the first is refused, so is the
/// second.
pub proof fn refused_response_gives_no_tokens(
    session: SessionView,
    require_nonce: bool,
    response: Seq<char>,
    store: StoredStateView,
)
    ensures
        ({
            let first = authenticated(session, require_nonce, response, store);
            let second = authenticated(first.session, require_nonce, response, first.store->0);
            &&& first.session.tokens == session.tokens
            &&& second.session.tokens == session.tokens
            &&& first.result is Err ==> second.result is Err
        }),
{
}

/// An answer of the token endpoint that is refused gives no tokens: those
/// of the session stay as they were, and no exchange is awaited any more, so
/// that the same answer once more is refused as well.
pub proof fn refused_answer_gives_no_tokens(
    session: SessionView,
    flow: FlowVariant,
    outcome: ExchangeOutcomeView,
    verification: Result<IdTokenClaimsView, Seq<char>>,
    verification_again: Result<IdTokenClaimsView, Seq<char>>,
)
    requires
        concluded(session, flow, outcome, verification).result is Err,
    ensures
        ({
            let first = concluded(session, flow, outcome, verification);
            let second = concluded(first.session, flow, outcome, verification_again);
            &&& first.session.tokens == session.tokens
            &&& second.result is Err
            &&& second.session.tokens == session.tokens
        }),
{
}

/// Tokens come only from an answer that was accepted: the session holds
/// new tokens after `concluded` exactly if the result is `Ok`.
pub proof fn tokens_come_from_accepted_answers(
    session: SessionView,
    flow: FlowVariant,
    outcome: ExchangeOutcomeView,
    verification: Result<IdTokenClaimsView, Seq<char>>,
)
    ensures
        concluded(session, flow, outcome, verification).result is Err ==> concluded(
            session,
            flow,
            outcome,
            verification,
        ).session.tokens == session.tokens,
        concluded(session, flow, outcome, verification).result is Ok ==> concluded(
            session,
            flow,
            outcome,
            verification,
        ).session.tokens is Some && session.pending is Some,
{
}

/// An access token that was exchanged never gives tokens. In the flow with
/// an ID token, let the ID token of the answer carry a hash of the access
/// token in its own payload, and let the access token of the answer hash to
/// something else under the ID token's signing algorithm. Then whatever the
/// verification gave, the answer is refused and the tokens of the session
/// stay as they were; and where the ID token verified, the refusal is a
/// `TokenTamper`.
pub proof fn exchanged_access_token_is_refused(
    session: SessionView,
    provider: OIDCClientData,
    response: TokenResponseView,
    verification: Result<IdTokenClaimsView, Seq<char>>,
)
    requires
        provider.flow() == FlowVariant::OidcWithIdToken,
        session.pending is Some,
        response.id_token is Some,
        verified_for(session, provider, ExchangeOutcomeView::Answered(response), verification),
        payload_of(response.id_token->0).claims.access_token_hash is Some,
        token_hash_under(response.id_token->0, response.access_token) is Ok,
        token_hash_under(response.id_token->0, response.access_token)->Ok_0 != payload_of(
            response.id_token->0,
        ).claims.access_token_hash->0,
    ensures
        ({
            let end = concluded(
                session,
                provider.flow(),
                ExchangeOutcomeView::Answered(response),
                verification,
            );
            &&& end.result is Err
            &&& end.session.tokens == session.tokens
            &&& verification is Ok ==> end.result->Err_0.kind == AuthErrorKind::TokenTamper
            &&& verification is Err ==> end.result->Err_0.kind == AuthErrorKind::IdTokenValidation
        }),
{
}

/// Tokens of the flow with an ID token carry the claims of that ID token:
/// where an answer is accepted, the verification succeeded for the ID token
/// of the answer, the nonce of the attempt and the issuer and client id of
/// the provider, and the claims that the session keeps are the token's own.
pub proof fn accepted_tokens_carry_verified_claims(
    session: SessionView,
    provider: OIDCClientData,
    outcome: ExchangeOutcomeView,
    verification: Result<IdTokenClaimsView, Seq<char>>,
)
    requires
        provider.flow() == FlowVariant::OidcWithIdToken,
        verified_for(session, provider, outcome, verification),
        concluded(session, provider.flow(), outcome, verification).result is Ok,
    ensures
        ({
            let end = concluded(session, provider.flow(), outcome, verification);
            let id_token = outcome->Answered_0.id_token->0;
            &&& outcome is Answered
            &&& outcome->Answered_0.id_token is Some
            &&& end.session.tokens is Some
            &&& end.session.tokens->0.id_token == Some(id_token)
            &&& end.session.tokens->0.access_token == outcome->Answered_0.access_token
            &&& end.session.tokens->0.claims == Some(payload_of(id_token).claims)
            &&& payload_of(id_token).nonce == session.pending->0
            &&& payload_of(id_token).issuer == provider.issuer_text()
            &&& payload_of(id_token).audiences.contains(provider.client_text())
        }),
{
}

/// The parameters of an OAuth2 authorization request name the CSRF token as
/// the state and the S256 challenge of the verifier as the code challenge.
pub proof fn request_names_state_and_challenge(
    client_id: Seq<char>,
    redirect_url: Seq<char>,
    verifier: Seq<char>,
    csrf: Seq<char>,
)
    ensures
        last_value(oauth2_pairs(client_id, redirect_url, verifier, csrf), "state"@) == Some(csrf),
        last_value(oauth2_pairs(client_id, redirect_url, verifier, csrf), "code_challenge"@)
            == Some(s256_challenge(verifier)),
{
    reveal_strlit("response_type");
    reveal_strlit("client_id");
    reveal_strlit("state");
    reveal_strlit("code_challenge");
    reveal_strlit("code_challenge_method");
    reveal_strlit("redirect_uri");
    let none = Seq::<(Seq<char>, Seq<char>)>::empty();
    let p1 = none.push(("response_type"@, "code"@));
    let p2 = p1.push(("client_id"@, client_id));
    let p3 = p2.push(("state"@, csrf));
    let p4 = p3.push(("code_challenge"@, s256_challenge(verifier)));
    let p5 = p4.push(("code_challenge_method"@, "S256"@));
    let p6 = p5.push(("redirect_uri"@, redirect_url));
    assert(oauth2_pairs(client_id, redirect_url, verifier, csrf) =~= p6);
    assert("state"@.len() == 5);
    assert("code_challenge"@.len() == 14);
    assert("code_challenge_method"@.len() == 21);
    assert("redirect_uri"@.len() == 12);
    last_value_after_push(p2, ("state"@, csrf), "state"@);
    last_value_after_push(p3, ("code_challenge"@, s256_challenge(verifier)), "state"@);
    last_value_after_push(p4, ("code_challenge_method"@, "S256"@), "state"@);
    last_value_after_push(p5, ("redirect_uri"@, redirect_url), "state"@);
    last_value_after_push(p3, ("code_challenge"@, s256_challenge(verifier)), "code_challenge"@);
    last_value_after_push(p4, ("code_challenge_method"@, "S256"@), "code_challenge"@);
    last_value_after_push(p5, ("redirect_uri"@, redirect_url), "code_challenge"@);
}

/// The authorization URL names the CSRF token as its state and the S256
/// challenge of the verifier as its code challenge, whatever parameters the
/// authorization endpoint has of its own. So a redirect that hands the
/// state of the URL back is read as carrying the CSRF token.
pub proof fn authorization_url_names_state_and_challenge(
    provider: OIDCClientData,
    url: Seq<char>,
    verifier: Seq<char>,
    csrf: Seq<char>,
    nonce: Option<Seq<char>>,
)
    requires
        provider.is_authorize_url(url, verifier, csrf, nonce),
    ensures
        parses_as_url(url),
        last_value(query_pairs_of(url), "state"@) == Some(csrf),
        last_value(query_pairs_of(url), "code_challenge"@) == Some(s256_challenge(verifier)),
{
    let own = query_pairs_of(provider.authorization_text());
    let base = oauth2_pairs(provider.client_text(), provider.redirect_text(), verifier, csrf);
    request_names_state_and_challenge(
        provider.client_text(),
        provider.redirect_text(),
        verifier,
        csrf,
    );
    if provider.issuer_text() is Some {
        reveal_strlit("state");
        reveal_strlit("code_challenge");
        reveal_strlit("scope");
        reveal_strlit("nonce");
        let none = Seq::<(Seq<char>, Seq<char>)>::empty();
        let e1 = none.push(("scope"@, "openid"@));
        let e2 = e1.push(("nonce"@, nonce->0));
        assert(seq![("scope"@, "openid"@), ("nonce"@, nonce->0)] =~= e2);
        assert("state"@[1] == 't');
        assert("scope"@[1] == 'c');
        assert("nonce"@[1] == 'o');
        assert("code_challenge"@.len() == 14);
        assert("scope"@.len() == 5);
        assert("nonce"@.len() == 5);
        last_value_after_push(none, ("scope"@, "openid"@), "state"@);
        last_value_after_push(e1, ("nonce"@, nonce->0), "state"@);
        last_value_after_push(none, ("scope"@, "openid"@), "code_challenge"@);
        last_value_after_push(e1, ("nonce"@, nonce->0), "code_challenge"@);
        last_value_of_joined(base, e2, "state"@);
        last_value_of_joined(base, e2, "code_challenge"@);
        last_value_of_joined(own, base + e2, "state"@);
        last_value_of_joined(own, base + e2, "code_challenge"@);
    } else {
        last_value_of_joined(own, base, "state"@);
        last_value_of_joined(own, base, "code_challenge"@);
    }
}

/// An attempt moves through the states in order: started, it is
/// `Initiated`; a redirect in order makes it `Exchanging`, any other
/// `Failed`; an accepted answer makes it `Completed`, a refused one
/// `Failed`. A fresh session is `Idle`.
pub proof fn attempt_moves_through_states(
    session: SessionView,
    material: PkceView,
    require_nonce: bool,
    code: Seq<char>,
    state: Seq<char>,
    store: Option<StoredStateView>,
    flow: FlowVariant,
    outcome: ExchangeOutcomeView,
    verification: Result<IdTokenClaimsView, Seq<char>>,
)
    ensures
        state_of(idle()) == SessionState::Idle,
        state_of(initiated(session, material)) == SessionState::Initiated,
        ({
            let redirected = began(initiated(session, material), require_nonce, code, state, store);
            let answered = concluded(redirected.session, flow, outcome, verification);
            &&& redirected.result is Ok ==> state_of(redirected.session)
                == SessionState::Exchanging
            &&& redirected.result is Err ==> state_of(redirected.session) == SessionState::Failed
            &&& redirected.result is Ok && answered.result is Ok ==> state_of(answered.session)
                == SessionState::Completed
            &&& redirected.result is Ok && answered.result is Err ==> state_of(answered.session)
                == SessionState::Failed
        }),
{
}

} // verus!
