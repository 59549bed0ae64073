//! A password that has passed the length rule.

use vstd::prelude::*;
use vstd::string::*;

verus! {

/// The least number of characters of an accepted password.
pub const MIN_PASSWORD_LENGTH: usize = 8;

/// A password of at least [`MIN_PASSWORD_LENGTH`] characters.
///
/// The only way to obtain one is [`Password::parse`], so that every value of
/// this type is long enough. The text is kept as it was given.
#[derive(Debug, Hash)]
pub struct Password(String);

/// Why a raw string is no password.
#[derive(Debug, Clone, Copy, PartialEq, Eq, Structural)]
pub enum PasswordParseError {
    /// The string holds no character.
    EmptyPassword,
    /// The string holds between one and seven characters.
    TooShort,
}

impl View for Password {
    type V = Seq<char>;

    /// The characters of the password.
    closed spec fn view(&self) -> Seq<char> {
        self.0@
    }
}

impl Password {
    /// Whether a raw string is long enough to be a password.
    pub open spec fn is_acceptable(raw: Seq<char>) -> bool {
        raw.len() >= MIN_PASSWORD_LENGTH
    }

    /// Holds of every password there is.
    #[verifier::type_invariant]
    pub open spec fn well_formed(&self) -> bool {
        Self::is_acceptable(self@)
    }

    /// Accepts any string of at least eight characters, whatever they are.
    pub fn parse(password: String) -> (result: Result<Password, PasswordParseError>)
        ensures
            password@.len() == 0 ==> result == Err::<Password, _>(
                PasswordParseError::EmptyPassword,
            ),
            0 < password@.len() < MIN_PASSWORD_LENGTH ==> result == Err::<Password, _>(
                PasswordParseError::TooShort,
            ),
            Self::is_acceptable(password@) ==> result is Ok && result->Ok_0@ == password@,
    {
        if password.as_str().is_empty() {
            return Err(PasswordParseError::EmptyPassword);
        }
        if password.as_str().unicode_len() < MIN_PASSWORD_LENGTH {
            return Err(PasswordParseError::TooShort);
        }
        Ok(Password(password))
    }

    /// The text of the password, which is never shorter than eight characters.
    pub fn as_ref(&self) -> (text: &str)
        ensures
            text@ == self@,
            Self::is_acceptable(text@),
    {
        proof {
            use_type_invariant(self);
        }
        self.0.as_str()
    }
}

impl Clone for Password {
    fn clone(&self) -> (copy: Self)
        ensures
            copy@ == self@,
    {
        proof {
            use_type_invariant(self);
        }
        Password(self.0.clone())
    }
}

impl PartialEq for Password {
    fn eq(&self, other: &Self) -> (equal: bool) {
        self.0 == other.0
    }
}

impl vstd::std_specs::cmp::PartialEqSpecImpl for Password {
    open spec fn obeys_eq_spec() -> bool {
        true
    }

    open spec fn eq_spec(&self, other: &Self) -> bool {
        self@ == other@
    }
}

impl Eq for Password {}

} // verus!
