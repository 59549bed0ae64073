//! Credential validation and user registry of a small authentication service.
//!
//! Raw strings enter through [`Email::parse`] and [`Password::parse`], the only
//! ways to obtain the validated values that a [`User`] is made of. A
//! [`UserStore`] keeps users under their email and checks credentials against
//! them; [`HashmapUserStore`] is the in-memory store. [`routes::signup`] takes
//! a request from raw strings to a user in a store.
//!
//! Nothing here waits or locks: adding a user takes the store exclusively,
//! reading takes it shared, and the caller decides how the store is shared
//! between its tasks.

pub mod domain;
pub mod routes;
pub mod services;

pub use domain::{
    AuthAPIError, Email, EmailParseError, Password, PasswordParseError, User, UserStore,
    UserStoreError, UserView,
};
pub use services::HashmapUserStore;
