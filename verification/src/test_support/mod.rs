//! Fixtures for the tests of the management API: test credentials and sample
//! accounts.

pub mod tokens;
pub mod user_accounts;
