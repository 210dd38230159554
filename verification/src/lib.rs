//! Server-side core of an OpenID Connect relying party: discovery-document
//! consumption, PKCE challenge generation, authorization-URI construction,
//! callback validation, token-exchange request building, and ID-token claims
//! verification.

pub mod bytes;
pub mod callback;
pub mod challenge;
pub mod errors;
pub mod idtoken;
pub mod oidc_config;
pub mod token;
pub mod pct;
pub mod query;
pub mod signin;
pub mod uri;
