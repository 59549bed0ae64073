//! The validated values, the user made of them, and the interface of a store.

pub mod data_stores;
pub mod email;
pub mod error;
pub mod password;
pub mod user;

pub use data_stores::{UserStore, UserStoreError};
pub use email::{email_format_ok, has_both_parts, Email, EmailParseError};
pub use error::AuthAPIError;
pub use password::{Password, PasswordParseError, MIN_PASSWORD_LENGTH};
pub use user::{User, UserView};
