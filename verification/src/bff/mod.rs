//! The web back end (BFF): configuration, the OIDC login flow's decisions, the
//! server-side session, and the token caches it presents upstream.

pub mod config;
pub mod oidc;
pub mod session;
pub mod pending;
pub mod login;
pub mod routes;
pub mod token;
pub mod exchange;
pub mod upstream;
