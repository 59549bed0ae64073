//! What each request does to the store, and what it answers.

pub mod signup;

pub use signup::{signup, signup_outcome, SignupRequest, SignupResponse};
