//! A user: an email address, a password, and whether a second factor is asked.

use vstd::prelude::*;

use crate::domain::email::Email;
use crate::domain::password::Password;

verus! {

/// A user as contracts see one: the texts of its email address and of its
/// password, and the second-factor flag.
pub struct UserView {
    pub email: Seq<char>,
    pub password: Seq<char>,
    pub requires_2fa: bool,
}

/// One registered identity. It is made of values that were validated before,
/// so that building one cannot fail.
#[derive(Debug)]
pub struct User {
    pub email: Email,
    pub password: Password,
    pub requires_2fa: bool,
}

impl UserView {
    /// Whether both texts are acceptable: those of a user always are.
    pub open spec fn is_valid(self) -> bool {
        Email::is_acceptable(self.email) && Password::is_acceptable(self.password)
    }
}

impl View for User {
    type V = UserView;

    open spec fn view(&self) -> UserView {
        UserView {
            email: self.email@,
            password: self.password@,
            requires_2fa: self.requires_2fa,
        }
    }
}

impl User {
    /// Puts the three parts together, unchanged.
    pub fn new(email: Email, password: Password, requires_2fa: bool) -> (user: User)
        ensures
            user.email == email,
            user.password == password,
            user.requires_2fa == requires_2fa,
            user@ == (UserView { email: email@, password: password@, requires_2fa }),
            user@.is_valid(),
    {
        proof {
            use_type_invariant(&email);
            use_type_invariant(&password);
        }
        User { email, password, requires_2fa }
    }
}

impl Clone for User {
    fn clone(&self) -> (copy: Self)
        ensures
            copy@ == self@,
    {
        User {
            email: self.email.clone(),
            password: self.password.clone(),
            requires_2fa: self.requires_2fa,
        }
    }
}

impl PartialEq for User {
    /// Two users are equal where all three parts are.
    fn eq(&self, other: &Self) -> (equal: bool) {
        self.email == other.email && self.password == other.password && self.requires_2fa
            == other.requires_2fa
    }
}

impl vstd::std_specs::cmp::PartialEqSpecImpl for User {
    open spec fn obeys_eq_spec() -> bool {
        true
    }

    open spec fn eq_spec(&self, other: &Self) -> bool {
        self@ == other@
    }
}

impl Eq for User {}

} // verus!
