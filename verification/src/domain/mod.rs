//! Domain types of the issuer: identifiers, user accounts and invitations.

pub mod ids;
pub mod invitation;
pub mod invitation_code;
pub mod user_account;

use vstd::prelude::*;

verus! {

/// Why a domain value could not be built from its input.
#[derive(Debug)]
pub enum DomainError {
    /// The input is malformed; `details` says how.
    InvalidInput { details: String },
}

} // verus!
