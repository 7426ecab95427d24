//! A local-machine OAuth2 authorization-code flow with PKCE.
//!
//! The crate builds an authorization URL carrying a PKCE challenge, decides
//! the behaviour of a short-lived localhost listener that captures the
//! provider's redirect, extracts the authorization code from the raw request
//! bytes, and drives the code-for-token exchange with a single-use PKCE
//! verifier.  Configuration storage, the HTTP transport and the user
//! interface are collaborators outside this crate: they hand plain values in
//! and take plain values back.

pub mod auth_url;
pub mod config_input;
pub mod config_inputs;
pub mod configuration;
pub mod encode;
pub mod error;
pub mod label;
pub mod localhost_oauth_server;
pub mod pkce;
pub mod port;
pub mod request;
pub mod search;
