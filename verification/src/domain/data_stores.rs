//! What a store of users does, whatever keeps the users.
//!
//! A store is described by the users it holds, as a map from the text of an
//! email address to the user registered under it. The functions below say, on
//! such a map, what each operation answers and what it leaves behind; the
//! trait's contracts and the laws at the end are stated over them.

use vstd::prelude::*;

use crate::domain::email::Email;
use crate::domain::password::Password;
use crate::domain::user::{User, UserView};

verus! {

/// Why a store refuses an operation.
#[derive(Debug, Clone, Copy, PartialEq, Eq, Structural)]
pub enum UserStoreError {
    /// A user is already registered under the email address.
    UserAlreadyExists,
    /// No user is registered under the email address.
    UserNotFound,
    /// The user is registered, with another password.
    InvalidCredentials,
    /// What keeps the users has failed; says nothing of the users.
    UnexpectedError,
}

/// There are finitely many users, and each of them is valid and filed under
/// its own email address.
pub open spec fn registry_wf(users: Map<Seq<char>, UserView>) -> bool {
    &&& users.dom().finite()
    &&& forall|email: Seq<char>| #[trigger]
        users.contains_key(email) ==> users[email].email == email && users[email].is_valid()
}

/// The answer to adding `user`: refused where its email address is taken.
pub open spec fn add_user_result(users: Map<Seq<char>, UserView>, user: UserView) -> Result<
    (),
    UserStoreError,
> {
    if users.contains_key(user.email) {
        Err(UserStoreError::UserAlreadyExists)
    } else {
        Ok(())
    }
}

/// The users after adding `user`: one more where the email address was free,
/// the same as before where it was taken.
pub open spec fn add_user_state(users: Map<Seq<char>, UserView>, user: UserView) -> Map<
    Seq<char>,
    UserView,
> {
    if users.contains_key(user.email) {
        users
    } else {
        users.insert(user.email, user)
    }
}

/// The answer to asking for the user under `email`.
pub open spec fn get_user_result(users: Map<Seq<char>, UserView>, email: Seq<char>) -> Result<
    UserView,
    UserStoreError,
> {
    if users.contains_key(email) {
        Ok(users[email])
    } else {
        Err(UserStoreError::UserNotFound)
    }
}

/// The answer to checking `password` for `email`. The user is looked up
/// first: under an unknown address the password is not looked at.
pub open spec fn validate_user_result(
    users: Map<Seq<char>, UserView>,
    email: Seq<char>,
    password: Seq<char>,
) -> Result<(), UserStoreError> {
    if !users.contains_key(email) {
        Err(UserStoreError::UserNotFound)
    } else if users[email].password != password {
        Err(UserStoreError::InvalidCredentials)
    } else {
        Ok(())
    }
}

/// A store of users, each under its email address.
///
/// A store that keeps its users elsewhere may fail on its own account. It
/// then answers `UnexpectedError`, and only a store whose `may_fail` holds
/// may do so. Whatever the answer, the users change only where `add_user`
/// answers `Ok`.
pub trait UserStore {
    /// The users held, by the text of their email address.
    spec fn users(&self) -> Map<Seq<char>, UserView>;

    /// Whether this kind of store can answer `UnexpectedError`.
    spec fn may_fail() -> bool;

    /// Registers `user`, unless its email address is taken.
    fn add_user(&mut self, user: User) -> (result: Result<(), UserStoreError>)
        ensures
            result == add_user_result(old(self).users(), user@) || (Self::may_fail() && result
                == Err::<(), _>(UserStoreError::UnexpectedError)),
            final(self).users() == if result is Ok {
                add_user_state(old(self).users(), user@)
            } else {
                old(self).users()
            },
    ;

    /// A copy of the user registered under `email`.
    fn get_user(&self, email: &Email) -> (result: Result<User, UserStoreError>)
        ensures
            match result {
                Ok(user) => get_user_result(self.users(), email@) == Ok::<_, UserStoreError>(
                    user@,
                ),
                Err(error) => get_user_result(self.users(), email@) == Err::<UserView, _>(error)
                    || (Self::may_fail() && error == UserStoreError::UnexpectedError),
            },
    ;

    /// Checks that `password` is the one registered under `email`.
    fn validate_user(&self, email: &Email, password: &Password) -> (result: Result<
        (),
        UserStoreError,
    >)
        ensures
            result == validate_user_result(self.users(), email@, password@) || (Self::may_fail()
                && result == Err::<(), _>(UserStoreError::UnexpectedError)),
    ;
}

/// Adding the same user twice is refused the second time, with
/// `UserAlreadyExists`, and the second call changes nothing. Where the email
/// address was free, the first call succeeds and the two calls together leave
/// exactly one user more; from the empty registry, exactly one user.
pub proof fn lemma_add_user_twice(users: Map<Seq<char>, UserView>, user: UserView)
    requires
        users.dom().finite(),
    ensures
        ({
            let once = add_user_state(users, user);
            let twice = add_user_state(once, user);
            &&& add_user_result(once, user) == Err::<(), _>(UserStoreError::UserAlreadyExists)
            &&& twice == once
            &&& !users.contains_key(user.email) ==> add_user_result(users, user) == Ok::<
                (),
                UserStoreError,
            >(()) && twice.len() == users.len() + 1
            &&& users == Map::<Seq<char>, UserView>::empty() ==> add_user_result(users, user)
                == Ok::<(), UserStoreError>(()) && twice.len() == 1
        }),
{
}

/// Under an email address that is not registered there is no user to get.
/// Once a user has been added under a free address, getting that address
/// gives the user back as it was added, and every other address answers as
/// before.
pub proof fn lemma_get_user_after_add(
    users: Map<Seq<char>, UserView>,
    user: UserView,
    other: Seq<char>,
)
    requires
        !users.contains_key(user.email),
    ensures
        get_user_result(users, user.email) == Err::<UserView, _>(UserStoreError::UserNotFound),
        get_user_result(add_user_state(users, user), user.email) == Ok::<_, UserStoreError>(
            user,
        ),
        other != user.email ==> get_user_result(add_user_state(users, user), other)
            == get_user_result(users, other),
{
}

/// Once a user has been added under a free email address, its own password
/// is accepted for that address and every other password is refused with
/// `InvalidCredentials`. Under an address that is not registered every
/// password is refused with `UserNotFound`, the right one as well.
pub proof fn lemma_validate_user_after_add(
    users: Map<Seq<char>, UserView>,
    user: UserView,
    password: Seq<char>,
    unknown: Seq<char>,
)
    requires
        !users.contains_key(user.email),
    ensures
        ({
            let after = add_user_state(users, user);
            &&& validate_user_result(after, user.email, user.password) == Ok::<
                (),
                UserStoreError,
            >(())
            &&& password != user.password ==> validate_user_result(after, user.email, password)
                == Err::<(), _>(UserStoreError::InvalidCredentials)
            &&& !after.contains_key(unknown) ==> validate_user_result(after, unknown, password)
                == Err::<(), _>(UserStoreError::UserNotFound)
        }),
{
}

/// Adding only adds: a user that is registered stays registered, unchanged,
/// and a well-formed registry stays well formed when a valid user is added.
pub proof fn lemma_add_user_keeps_users(
    users: Map<Seq<char>, UserView>,
    user: UserView,
    email: Seq<char>,
)
    requires
        registry_wf(users),
        user.is_valid(),
    ensures
        registry_wf(add_user_state(users, user)),
        users.contains_key(email) ==> add_user_state(users, user).contains_key(email)
            && add_user_state(users, user)[email] == users[email],
{
}

} // verus!
