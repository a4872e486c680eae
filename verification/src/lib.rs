//! Client side of the OAuth2 authorization-code flow with PKCE, in a plain
//! OAuth2 variant and an OpenID Connect variant that verifies the ID token.
//!
//! The library holds the decisions of the flow: what challenge material is
//! generated and kept, what is written to and read from the session store,
//! how the redirect response is read, and when an exchange is accepted. The
//! network round trips are left to the caller, who hands their outcomes back
//! as plain values.

pub mod auth_manager;
pub mod client_data;
pub mod error;
pub mod framework;
pub mod greeter;
pub mod guarantees;
pub mod pkce;
pub mod response;
pub mod tokens;

pub use auth_manager::AuthManager;
pub use auth_manager::ExchangeRequest;
pub use auth_manager::SessionState;
pub use client_data::FlowVariant;
pub use client_data::OIDCClientData;
pub use client_data::ProviderMetadata;
pub use error::AuthError;
pub use error::AuthErrorKind;
pub use framework::Framework;
pub use greeter::Greeter;
pub use pkce::PKCE;
pub use pkce::StoredState;
pub use pkce::StoredValue;
pub use tokens::ExchangeOutcome;
pub use tokens::IdTokenClaims;
pub use tokens::TokenResponse;
pub use tokens::TokenSet;
