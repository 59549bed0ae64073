//! What the service answers to a request that it does not fulfil.

use vstd::prelude::*;

verus! {

/// Why a request is not fulfilled.
#[derive(Debug, Clone, Copy, PartialEq, Eq, Structural)]
pub enum AuthAPIError {
    /// A user is already registered under the email address.
    UserAlreadyExists,
    /// The email address or the password is not acceptable.
    InvalidCredentials,
    /// The store has failed.
    UnexpectedError,
}

} // verus!
