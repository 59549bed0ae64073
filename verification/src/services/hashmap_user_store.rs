//! The store that keeps its users in memory.

use vstd::hash_map::*;
use vstd::prelude::*;

use crate::domain::data_stores::{
    add_user_result, add_user_state, get_user_result, registry_wf, validate_user_result,
    UserStore, UserStoreError,
};
use crate::domain::email::Email;
use crate::domain::password::Password;
use crate::domain::user::{User, UserView};

verus! {

/// Users in a hash map, under the text of their email address.
///
/// It starts empty, grows by `add_user` alone, and never fails on its own
/// account.
pub struct HashmapUserStore {
    users: StringHashMap<User>,
}

impl View for HashmapUserStore {
    type V = Map<Seq<char>, UserView>;

    /// The users held, by the text of their email address.
    closed spec fn view(&self) -> Map<Seq<char>, UserView> {
        Map::new(
            |email: Seq<char>| self.users@.contains_key(email),
            |email: Seq<char>| self.users@[email]@,
        )
    }
}

impl HashmapUserStore {
    #[verifier::type_invariant]
    spec fn filed_by_email(&self) -> bool {
        &&& self.users@.dom().finite()
        &&& forall|email: Seq<char>| #[trigger]
            self.users@.contains_key(email) ==> self.users@[email].email@ == email
                && self.users@[email]@.is_valid()
    }

    /// The number of users held. Each of them is filed under its own email
    /// address.
    pub fn user_count(&self) -> (count: usize)
        ensures
            count == self@.len(),
            registry_wf(self@),
    {
        proof {
            use_type_invariant(self);
            assert(self@.dom() =~= self.users@.dom());
        }
        self.users.len()
    }
}

impl Default for HashmapUserStore {
    /// The store without users.
    fn default() -> (store: Self)
        ensures
            store@ == Map::<Seq<char>, UserView>::empty(),
    {
        HashmapUserStore { users: StringHashMap::new() }
    }
}

impl UserStore for HashmapUserStore {
    open spec fn users(&self) -> Map<Seq<char>, UserView> {
        self@
    }

    open spec fn may_fail() -> bool {
        false
    }

    fn add_user(&mut self, user: User) -> (result: Result<(), UserStoreError>)
        ensures
            result == add_user_result(old(self)@, user@),
            final(self)@ == add_user_state(old(self)@, user@),
    {
        proof {
            use_type_invariant(&*self);
            use_type_invariant(&user.email);
            use_type_invariant(&user.password);
        }
        if self.users.contains_key(user.email.as_ref()) {
            return Err(UserStoreError::UserAlreadyExists);
        }
        let key = user.email.as_ref().to_owned();
        // The map is taken out while it grows: the store is whole at every step.
        let mut users = StringHashMap::new();
        std::mem::swap(&mut users, &mut self.users);
        users.insert(key, user);
        self.users = users;
        Ok(())
    }

    fn get_user(&self, email: &Email) -> (result: Result<User, UserStoreError>)
        ensures
            match result {
                Ok(user) => get_user_result(self@, email@) == Ok::<_, UserStoreError>(user@)
                    && user@.email == email@ && user@.is_valid(),
                Err(error) => get_user_result(self@, email@) == Err::<UserView, _>(error),
            },
    {
        proof {
            use_type_invariant(self);
        }
        match self.users.get(email.as_ref()) {
            Some(user) => Ok(user.clone()),
            None => Err(UserStoreError::UserNotFound),
        }
    }

    fn validate_user(&self, email: &Email, password: &Password) -> (result: Result<
        (),
        UserStoreError,
    >)
        ensures
            result == validate_user_result(self@, email@, password@),
    {
        match self.users.get(email.as_ref()) {
            Some(user) => {
                if user.password == *password {
                    Ok(())
                } else {
                    Err(UserStoreError::InvalidCredentials)
                }
            },
            None => Err(UserStoreError::UserNotFound),
        }
    }
}

} // verus!
