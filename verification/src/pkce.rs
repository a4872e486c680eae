//! The challenge material of one authorization attempt, and its image in
//! the session store.
//!
//! The store keeps the material under three keys, `verifier`, `csrf` and
//! `nonce`. A key that is not set is absent, which is not the same as set
//! to the empty string.

use vstd::prelude::*;
use vstd::utf8::encode_utf8;
use vstd::utf8::is_ascii_chars;
use vstd::utf8::is_ascii_chars_encode_utf8;
use crate::error::AuthError;
use crate::error::AuthErrorKind;
use crate::error::AuthFailure;

verus! {

/// The length in bytes of a text in UTF-8.
pub open spec fn byte_len(text: Seq<char>) -> nat {
    encode_utf8(text).len()
}

/// The number of bytes of every generated verifier: 32 random bytes in
/// unpadded base64.
pub const VERIFIER_LEN: usize = 43;

/// The longest verifier that a challenge can be derived from.
pub const VERIFIER_MAX_LEN: usize = 128;

/// The number of bytes of every generated CSRF token and nonce: 16 random
/// bytes in unpadded base64.
pub const TOKEN_LEN: usize = 22;

/// Whether a character is one of the URL-safe base64 alphabet: a letter, a
/// digit, `-` or `_`.
pub open spec fn is_url_safe_char(c: char) -> bool {
    ||| 'A' <= c <= 'Z'
    ||| 'a' <= c <= 'z'
    ||| '0' <= c <= '9'
    ||| c == '-'
    ||| c == '_'
}

/// Whether a text holds only characters of the URL-safe base64 alphabet.
pub open spec fn url_safe(text: Seq<char>) -> bool {
    forall|i: int| 0 <= i < text.len() ==> is_url_safe_char(#[trigger] text[i])
}

/// A text of the URL-safe base64 alphabet has one byte for each character.
pub proof fn url_safe_text_has_one_byte_per_char(text: Seq<char>)
    requires
        url_safe(text),
    ensures
        byte_len(text) == text.len(),
{
    assert(is_ascii_chars(text));
    is_ascii_chars_encode_utf8(text);
}

/// Whether a challenge can be derived from a verifier of this text.
pub open spec fn derivable(verifier: Seq<char>) -> bool {
    VERIFIER_LEN <= byte_len(verifier) <= VERIFIER_MAX_LEN
}

/// The S256 challenge of a verifier: the unpadded URL-safe base64 of the
/// SHA-256 digest of its bytes, as
/// `oauth2::PkceCodeChallenge::from_code_verifier_sha256` computes it.
pub uninterp spec fn s256_challenge(verifier: Seq<char>) -> Seq<char>;

/// Calls `oauth2::PkceCodeChallenge::from_code_verifier_sha256` and hands
/// out the challenge as a string. The call panics on a verifier shorter
/// than 43 or longer than 128 bytes, which `requires` leaves out.
#[verifier::external_body]
pub(crate) fn derive_challenge(verifier: &str) -> (challenge: String)
    requires
        derivable(verifier@),
    ensures
        challenge@ == s256_challenge(verifier@),
{
    let verifier = oauth2::PkceCodeVerifier::new(verifier.to_string());
    oauth2::PkceCodeChallenge::from_code_verifier_sha256(&verifier).as_str().to_string()
}

/// Calls `oauth2::PkceCodeChallenge::new_random_sha256` and hands out the
/// challenge and the verifier as strings. The verifier is 32 random bytes
/// in unpadded URL-safe base64, so 43 bytes long and made of that alphabet;
/// the challenge is the one that `from_code_verifier_sha256` derives from
/// it. Nothing is said of which verifier comes out.
#[verifier::external_body]
pub(crate) fn random_challenge_pair() -> (pair: (String, String))
    ensures
        byte_len(pair.1@) == VERIFIER_LEN,
        url_safe(pair.1@),
        pair.0@ == s256_challenge(pair.1@),
{
    let (challenge, verifier) = oauth2::PkceCodeChallenge::new_random_sha256();
    (challenge.as_str().to_string(), verifier.secret().clone())
}

/// Calls `oauth2::CsrfToken::new_random` and hands out the token as a
/// string: 16 random bytes in unpadded URL-safe base64, so 22 bytes long
/// and made of that alphabet.
#[verifier::external_body]
pub(crate) fn random_csrf_token() -> (token: String)
    ensures
        byte_len(token@) == TOKEN_LEN,
        url_safe(token@),
{
    oauth2::CsrfToken::new_random().secret().clone()
}

/// Calls `openidconnect::Nonce::new_random` and hands out the nonce as a
/// string: 16 random bytes in unpadded URL-safe base64, so 22 bytes long
/// and made of that alphabet.
#[verifier::external_body]
pub(crate) fn random_nonce() -> (nonce: String)
    ensures
        byte_len(nonce@) == TOKEN_LEN,
        url_safe(nonce@),
{
    openidconnect::Nonce::new_random().secret().clone()
}

/// What reading one key of the session store gave.
#[derive(Clone, Debug)]
pub enum StoredValue {
    /// The key is not set.
    Absent,
    /// The key is set to this value.
    Value(String),
    /// The store could not be read; the cause is kept.
    Failed(String),
}

/// A `StoredValue` as contracts speak of it.
pub enum StoredValueView {
    Absent,
    Value(Seq<char>),
    Failed(Seq<char>),
}

impl View for StoredValue {
    type V = StoredValueView;

    open spec fn view(&self) -> StoredValueView {
        match self {
            StoredValue::Absent => StoredValueView::Absent,
            StoredValue::Value(v) => StoredValueView::Value(v@),
            StoredValue::Failed(cause) => StoredValueView::Failed(cause@),
        }
    }
}

/// The image of the session store: what each of the three keys holds.
#[derive(Clone, Debug)]
pub struct StoredState {
    pub verifier: StoredValue,
    pub csrf: StoredValue,
    pub nonce: StoredValue,
}

/// A `StoredState` as contracts speak of it.
pub struct StoredStateView {
    pub verifier: StoredValueView,
    pub csrf: StoredValueView,
    pub nonce: StoredValueView,
}

impl View for StoredState {
    type V = StoredStateView;

    open spec fn view(&self) -> StoredStateView {
        StoredStateView { verifier: self.verifier@, csrf: self.csrf@, nonce: self.nonce@ }
    }
}

/// The store in which none of the three keys is set.
pub open spec fn empty_store() -> StoredStateView {
    StoredStateView {
        verifier: StoredValueView::Absent,
        csrf: StoredValueView::Absent,
        nonce: StoredValueView::Absent,
    }
}

impl StoredState {
    /// A store in which none of the three keys is set.
    pub fn new() -> (s: StoredState)
        ensures
            s@ == empty_store(),
    {
        StoredState {
            verifier: StoredValue::Absent,
            csrf: StoredValue::Absent,
            nonce: StoredValue::Absent,
        }
    }

    /// Removes the three keys.
    pub fn clear(&mut self)
        ensures
            final(self)@ == empty_store(),
    {
        self.verifier = StoredValue::Absent;
        self.csrf = StoredValue::Absent;
        self.nonce = StoredValue::Absent;
    }
}

/// The challenge material of one attempt: the PKCE verifier, the CSRF
/// token, and the nonce where the flow has one.
#[derive(Debug)]
pub struct PKCE {
    pub verifier: String,
    pub csrf: String,
    pub nonce: Option<String>,
}

/// A `PKCE` as contracts speak of it.
pub struct PkceView {
    pub verifier: Seq<char>,
    pub csrf: Seq<char>,
    pub nonce: Option<Seq<char>>,
}

impl View for PKCE {
    type V = PkceView;

    open spec fn view(&self) -> PkceView {
        PkceView {
            verifier: self.verifier@,
            csrf: self.csrf@,
            nonce: match self.nonce {
                Some(n) => Some(n@),
                None => None,
            },
        }
    }
}

/// The store after the material was written to it: the verifier and the
/// CSRF token are set; the nonce is set where the material has one, and
/// left as it was where it has none.
pub open spec fn stored(material: PkceView, before: StoredStateView) -> StoredStateView {
    StoredStateView {
        verifier: StoredValueView::Value(material.verifier),
        csrf: StoredValueView::Value(material.csrf),
        nonce: match material.nonce {
            Some(n) => StoredValueView::Value(n),
            None => before.nonce,
        },
    }
}

/// The cause of the first of three reads that failed, if one did.
pub open spec fn first_failure(
    a: StoredValueView,
    b: StoredValueView,
    c: StoredValueView,
) -> Option<Seq<char>> {
    match (a, b, c) {
        (StoredValueView::Failed(cause), _, _) => Some(cause),
        (_, StoredValueView::Failed(cause), _) => Some(cause),
        (_, _, StoredValueView::Failed(cause)) => Some(cause),
        _ => None,
    }
}

/// The cause given where no challenge material is stored.
pub open spec fn no_challenge_cause() -> Seq<char> {
    "No authentication data in storage found!"@
}

/// The cause given where one of verifier and CSRF token is stored without
/// the other: it names the key that is missing.
pub open spec fn missing_key_cause(store: StoredStateView) -> Seq<char> {
    if store.verifier is Absent {
        "Missing in storage: verifier"@
    } else {
        "Missing in storage: csrf"@
    }
}

/// What loading from a store gives where the flow has a nonce.
///
/// The three keys count as one record: it is there only if all three are
/// set. If any of them is absent, no attempt is in flight, whatever the
/// others hold. Otherwise a read that failed is reported, the first of
/// them.
pub open spec fn loaded_with_nonce(store: StoredStateView) -> Result<PkceView, AuthFailure> {
    if store.verifier is Absent || store.csrf is Absent || store.nonce is Absent {
        Err(AuthFailure { kind: AuthErrorKind::NoActiveChallenge, cause: no_challenge_cause() })
    } else {
        match first_failure(store.verifier, store.csrf, store.nonce) {
            Some(cause) => Err(AuthFailure { kind: AuthErrorKind::Storage, cause }),
            None => Ok(
                PkceView {
                    verifier: store.verifier->Value_0,
                    csrf: store.csrf->Value_0,
                    nonce: Some(store.nonce->Value_0),
                },
            ),
        }
    }
}

/// What loading from a store gives where the flow has no nonce.
///
/// Only the verifier and the CSRF token are needed. If both are absent, no
/// attempt is in flight; if one is, the record is incomplete and the error
/// names the missing key. Otherwise a read of one of the two that failed is
/// reported, the first of them. A nonce is taken along if one is set.
pub open spec fn loaded_without_nonce(store: StoredStateView) -> Result<PkceView, AuthFailure> {
    if store.verifier is Absent && store.csrf is Absent {
        Err(AuthFailure { kind: AuthErrorKind::NoActiveChallenge, cause: no_challenge_cause() })
    } else if store.verifier is Absent || store.csrf is Absent {
        Err(AuthFailure { kind: AuthErrorKind::MissingState, cause: missing_key_cause(store) })
    } else {
        match first_failure(store.verifier, store.csrf, StoredValueView::Absent) {
            Some(cause) => Err(AuthFailure { kind: AuthErrorKind::Storage, cause }),
            None => Ok(
                PkceView {
                    verifier: store.verifier->Value_0,
                    csrf: store.csrf->Value_0,
                    nonce: match store.nonce {
                        StoredValueView::Value(n) => Some(n),
                        _ => None,
                    },
                },
            ),
        }
    }
}

/// What loading from a store gives.
pub open spec fn loaded(store: StoredStateView, require_nonce: bool) -> Result<
    PkceView,
    AuthFailure,
> {
    if require_nonce {
        loaded_with_nonce(store)
    } else {
        loaded_without_nonce(store)
    }
}

/// A loaded material, or the error, as contracts speak of it.
pub open spec fn load_view(r: Result<PKCE, AuthError>) -> Result<PkceView, AuthFailure> {
    match r {
        Ok(material) => Ok(material@),
        Err(e) => Err(e@),
    }
}

impl PKCE {
    /// The material made of the given verifier, CSRF token and nonce.
    pub fn new(verifier: String, csrf: String, nonce: Option<String>) -> (material: PKCE)
        ensures
            material.verifier == verifier,
            material.csrf == csrf,
            material.nonce == nonce,
    {
        PKCE { verifier, csrf, nonce }
    }

    /// Fresh material for one attempt, and the challenge to send with it.
    ///
    /// The verifier, the CSRF token and the nonce are random, and made of
    /// the URL-safe base64 alphabet. The challenge is the S256 challenge of
    /// the verifier, and the verifier is `VERIFIER_LEN` bytes long. There is
    /// a nonce exactly if one is asked for.
    pub fn generate(require_nonce: bool) -> (fresh: (PKCE, String))
        ensures
            fresh.1@ == s256_challenge(fresh.0.verifier@),
            byte_len(fresh.0.verifier@) == VERIFIER_LEN,
            derivable(fresh.0.verifier@),
            fresh.0.verifier@.len() == VERIFIER_LEN,
            url_safe(fresh.0.verifier@),
            byte_len(fresh.0.csrf@) == TOKEN_LEN,
            url_safe(fresh.0.csrf@),
            fresh.0.nonce is Some == require_nonce,
            require_nonce ==> byte_len(fresh.0.nonce->0@) == TOKEN_LEN && url_safe(
                fresh.0.nonce->0@,
            ),
    {
        let (challenge, verifier) = random_challenge_pair();
        proof {
            url_safe_text_has_one_byte_per_char(verifier@);
        }
        let csrf = random_csrf_token();
        let nonce = if require_nonce {
            Some(random_nonce())
        } else {
            None
        };
        (PKCE { verifier, csrf, nonce }, challenge)
    }

    /// The S256 challenge of the verifier, where one can be derived: the
    /// verifier must be 43 to 128 bytes long.
    pub fn challenge(&self) -> (c: Option<String>)
        ensures
            c is Some == derivable(self.verifier@),
            c is Some ==> c->0@ == s256_challenge(self.verifier@),
    {
        let n = self.verifier.as_str().as_bytes().len();
        if VERIFIER_LEN <= n && n <= VERIFIER_MAX_LEN {
            Some(derive_challenge(self.verifier.as_str()))
        } else {
            None
        }
    }

    /// Writes the material to the store. Only what the material holds is
    /// written: without a nonce, the store's nonce stays as it is.
    pub fn store(&self, storage: &mut StoredState)
        ensures
            final(storage)@ == stored(self@, old(storage)@),
    {
        storage.verifier = StoredValue::Value(self.verifier.clone());
        storage.csrf = StoredValue::Value(self.csrf.clone());
        match &self.nonce {
            Some(n) => {
                storage.nonce = StoredValue::Value(n.clone());
            },
            None => {},
        }
    }

    /// Loads the material from the store.
    pub fn load_from(storage: &StoredState, require_nonce: bool) -> (r: Result<PKCE, AuthError>)
        ensures
            load_view(r) == loaded(storage@, require_nonce),
    {
        if require_nonce {
            match (&storage.verifier, &storage.csrf, &storage.nonce) {
                (StoredValue::Value(v), StoredValue::Value(c), StoredValue::Value(n)) => Ok(
                    PKCE { verifier: v.clone(), csrf: c.clone(), nonce: Some(n.clone()) },
                ),
                (StoredValue::Absent, _, _)
                | (_, StoredValue::Absent, _)
                | (_, _, StoredValue::Absent) => Err(
                    AuthError::of(
                        AuthErrorKind::NoActiveChallenge,
                        "No authentication data in storage found!",
                    ),
                ),
                (StoredValue::Failed(cause), _, _)
                | (_, StoredValue::Failed(cause), _)
                | (_, _, StoredValue::Failed(cause)) => Err(
                    AuthError::new(AuthErrorKind::Storage, cause.clone()),
                ),
            }
        } else {
            let nonce = match &storage.nonce {
                StoredValue::Value(n) => Some(n.clone()),
                _ => None,
            };
            match (&storage.verifier, &storage.csrf) {
                (StoredValue::Value(v), StoredValue::Value(c)) => Ok(
                    PKCE { verifier: v.clone(), csrf: c.clone(), nonce },
                ),
                (StoredValue::Absent, StoredValue::Absent) => Err(
                    AuthError::of(
                        AuthErrorKind::NoActiveChallenge,
                        "No authentication data in storage found!",
                    ),
                ),
                (StoredValue::Absent, _) => Err(
                    AuthError::of(AuthErrorKind::MissingState, "Missing in storage: verifier"),
                ),
                (_, StoredValue::Absent) => Err(
                    AuthError::of(AuthErrorKind::MissingState, "Missing in storage: csrf"),
                ),
                (StoredValue::Failed(cause), _) | (_, StoredValue::Failed(cause)) => Err(
                    AuthError::new(AuthErrorKind::Storage, cause.clone()),
                ),
            }
        }
    }

    /// Takes the material apart: the verifier, the CSRF token and the
    /// nonce.
    pub fn destructure(self) -> (parts: (String, String, Option<String>))
        ensures
            parts.0 == self.verifier,
            parts.1 == self.csrf,
            parts.2 == self.nonce,
    {
        (self.verifier, self.csrf, self.nonce)
    }
}

} // verus!
