//! Operator tooling.

pub mod keycloak;
