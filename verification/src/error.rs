//! The errors of the authorization flow.

use vstd::prelude::*;
use vstd::string::StringExecFns;

verus! {

/// What went wrong during an authorization attempt.
#[derive(Clone, Copy, Debug, PartialEq, Eq, Structural)]
pub enum AuthErrorKind {
    /// A provider URL supplied at construction is malformed.
    Configuration,
    /// The provider metadata could not be fetched or read.
    Discovery,
    /// The session store could not be read or written.
    Storage,
    /// No authorization attempt is in flight.
    NoActiveChallenge,
    /// The redirect response is not a URL.
    MalformedResponse,
    /// The redirect response carries no query parameters.
    EmptyResponse,
    /// The redirect response carries no `code` parameter.
    MissingCode,
    /// A `state` is missing: the parameter of the redirect response, or part
    /// of the stored challenge material.
    MissingState,
    /// The `state` of the response is not the CSRF token that was sent.
    CsrfMismatch,
    /// The token endpoint refused the code, or could not be reached.
    Exchange,
    /// The token response carries no ID token.
    MissingIdToken,
    /// The ID token's signature, claims or nonce did not verify.
    IdTokenValidation,
    /// The access token is not the one that the ID token was issued with.
    TokenTamper,
}

/// An error of the authorization flow: its kind, and a cause to show.
#[derive(Clone, Debug)]
pub struct AuthError {
    pub kind: AuthErrorKind,
    pub cause: String,
}

/// An error as contracts speak of it: its kind, and its cause as a text.
pub struct AuthFailure {
    pub kind: AuthErrorKind,
    pub cause: Seq<char>,
}

impl View for AuthError {
    type V = AuthFailure;

    open spec fn view(&self) -> AuthFailure {
        AuthFailure { kind: self.kind, cause: self.cause@ }
    }
}

impl AuthError {
    /// An error of the given kind with the given cause.
    pub fn new(kind: AuthErrorKind, cause: String) -> (e: AuthError)
        ensures
            e.kind == kind,
            e.cause@ == cause@,
    {
        AuthError { kind, cause }
    }

    /// An error of the given kind whose cause is a fixed text.
    pub fn of(kind: AuthErrorKind, cause: &str) -> (e: AuthError)
        ensures
            e.kind == kind,
            e.cause@ == cause@,
    {
        AuthError { kind, cause: String::from_str(cause) }
    }

    /// The kind of the error.
    pub fn kind(&self) -> (k: AuthErrorKind)
        ensures
            k == self.kind,
    {
        self.kind
    }

    /// The cause of the error.
    pub fn cause(&self) -> (c: &str)
        ensures
            c@ == self.cause@,
    {
        self.cause.as_str()
    }

    /// The text shown to the user: a fixed prefix, then the cause.
    pub open spec fn message_text(self) -> Seq<char> {
        "Error, cannot authenticate: "@ + self.cause@
    }

    /// The text shown to the user.
    pub fn message(&self) -> (m: String)
        ensures
            m@ == self.message_text(),
    {
        String::from_str("Error, cannot authenticate: ").concat(self.cause.as_str())
    }
}

} // verus!
