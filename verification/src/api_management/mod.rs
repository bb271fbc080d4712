//! The management API's authentication and request logic.

pub mod error;
pub mod token_validator;
pub mod jwks;
pub mod auth;
pub mod invitations;
pub mod linking;
pub mod user_accounts;
pub mod normalise;
