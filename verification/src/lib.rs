//! Verified core of the swiyu issuer: token and claim validation for the
//! management API, the user-account and invitation domain, and the decision
//! logic of the web back end.

pub mod json;
pub mod text;
pub mod encoding;
pub mod domain;
pub mod api_management;
pub mod persistence;
pub mod cli;
pub mod bff;
pub mod test_support;
