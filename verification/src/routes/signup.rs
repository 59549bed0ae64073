//! Signing up: from raw strings to a user in the store.

use vstd::prelude::*;

use crate::domain::data_stores::{add_user_result, UserStore, UserStoreError};
use crate::domain::email::Email;
use crate::domain::error::AuthAPIError;
use crate::domain::password::Password;
use crate::domain::user::{User, UserView};

verus! {

/// What a client sends to sign up, as decoded from its request.
#[derive(Debug)]
pub struct SignupRequest {
    pub email: String,
    pub password: String,
    pub requires_2fa: bool,
}

/// What a client is told once it is signed up.
#[derive(Debug)]
pub struct SignupResponse {
    pub message: String,
}

impl PartialEq for SignupResponse {
    fn eq(&self, other: &Self) -> (equal: bool) {
        self.message == other.message
    }
}

impl vstd::std_specs::cmp::PartialEqSpecImpl for SignupResponse {
    open spec fn obeys_eq_spec() -> bool {
        true
    }

    open spec fn eq_spec(&self, other: &Self) -> bool {
        self.message@ == other.message@
    }
}

impl SignupRequest {
    /// Whether both strings of the request are acceptable.
    pub open spec fn is_acceptable(&self) -> bool {
        Email::is_acceptable(self.email@) && Password::is_acceptable(self.password@)
    }

    /// The user that the request asks for.
    pub open spec fn user(&self) -> UserView {
        UserView {
            email: self.email@,
            password: self.password@,
            requires_2fa: self.requires_2fa,
        }
    }
}

/// What signing up answers, given the answer of the store: only a taken
/// email address is told apart from other failures.
pub open spec fn signup_status(added: Result<(), UserStoreError>) -> Result<(), AuthAPIError> {
    match added {
        Ok(()) => Ok(()),
        Err(UserStoreError::UserAlreadyExists) => Err(AuthAPIError::UserAlreadyExists),
        Err(_) => Err(AuthAPIError::UnexpectedError),
    }
}

/// Turns the answer of the store into the answer to the client.
pub fn signup_outcome(added: Result<(), UserStoreError>) -> (result: Result<
    SignupResponse,
    AuthAPIError,
>)
    ensures
        match result {
            Ok(response) => signup_status(added) == Ok::<(), AuthAPIError>(())
                && response.message@ == "User created successfully!"@,
            Err(error) => signup_status(added) == Err::<(), _>(error),
        },
{
    match added {
        Ok(()) => Ok(SignupResponse { message: "User created successfully!".to_owned() }),
        Err(UserStoreError::UserAlreadyExists) => Err(AuthAPIError::UserAlreadyExists),
        Err(_) => Err(AuthAPIError::UnexpectedError),
    }
}

/// Signs a user up.
///
/// Both strings are validated before the store is touched; a request with an
/// unacceptable one is answered `InvalidCredentials` and changes nothing. An
/// acceptable request is handed to the store as a user, and the store's
/// answer decides: the user is registered and the client told so, or the
/// store is left as it was.
pub fn signup<S: UserStore>(store: &mut S, request: SignupRequest) -> (result: Result<
    SignupResponse,
    AuthAPIError,
>)
    ensures
        !request.is_acceptable() ==> result == Err::<SignupResponse, _>(
            AuthAPIError::InvalidCredentials,
        ) && final(store).users() == old(store).users(),
        request.is_acceptable() ==> {
            let wanted = signup_status(add_user_result(old(store).users(), request.user()));
            &&& match result {
                Ok(response) => wanted == Ok::<(), AuthAPIError>(()) && response.message@
                    == "User created successfully!"@,
                Err(error) => wanted == Err::<(), _>(error) || (S::may_fail() && error
                    == AuthAPIError::UnexpectedError),
            }
            &&& final(store).users() == if result is Ok {
                old(store).users().insert(request.email@, request.user())
            } else {
                old(store).users()
            }
        },
{
    let email = match Email::parse(request.email) {
        Ok(email) => email,
        Err(_) => {
            return Err(AuthAPIError::InvalidCredentials);
        },
    };
    let password = match Password::parse(request.password) {
        Ok(password) => password,
        Err(_) => {
            return Err(AuthAPIError::InvalidCredentials);
        },
    };
    let user = User::new(email, password, request.requires_2fa);
    let added = store.add_user(user);
    signup_outcome(added)
}

} // verus!
