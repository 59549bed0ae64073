//! An email address that has passed the format check.

use vstd::prelude::*;

verus! {

/// Whether `validator::validate_email` accepts a string: one part before the
/// last `@` and a domain or an address literal after it, as HTML5 describes an
/// address. The answer depends on the characters alone.
pub uninterp spec fn email_format_ok(raw: Seq<char>) -> bool;

/// A string that holds an `@`, with something before the first and something
/// after the last.
pub open spec fn has_both_parts(raw: Seq<char>) -> bool {
    raw.len() > 0 && raw.contains('@') && raw.first() != '@' && raw.last() != '@'
}

/// Asks `validator::validate_email` whether a string is an email address.
///
/// Nothing is proved of that function. The contract gives its answer the name
/// [`email_format_ok`], and repeats three things that its source shows. It
/// refuses the empty string and every string without an `@`, before anything
/// else. It refuses what ends with an `@`: the part after the last `@` is then
/// empty, and neither a domain nor an address literal. It refuses what begins
/// with an `@`: the part before the last `@` is then empty or begins with an
/// `@`, and has to be one or more characters, none of which is an `@`.
#[verifier::external_body]
fn has_email_format(raw: &str) -> (accepted: bool)
    ensures
        accepted == email_format_ok(raw@),
        accepted ==> has_both_parts(raw@),
{
    validator::validate_email(raw)
}

/// An email address: never empty, and in the format that the check accepts.
///
/// The only way to obtain one is [`Email::parse`]. The text is kept as it was
/// given, and two addresses are equal where their texts are.
#[derive(Debug, Hash)]
pub struct Email(String);

/// Why a raw string is no email address.
#[derive(Debug, Clone, Copy, PartialEq, Eq, Structural)]
pub enum EmailParseError {
    /// The string holds no character.
    EmptyEmail,
    /// The string is not empty, and the format check refuses it.
    InvalidFormat,
}

impl View for Email {
    type V = Seq<char>;

    /// The characters of the address.
    closed spec fn view(&self) -> Seq<char> {
        self.0@
    }
}

impl Email {
    /// Whether a raw string can be an email address: it has both parts
    /// around an `@`, and passes the format check.
    pub open spec fn is_acceptable(raw: Seq<char>) -> bool {
        has_both_parts(raw) && email_format_ok(raw)
    }

    /// Holds of every email address there is.
    #[verifier::type_invariant]
    pub open spec fn well_formed(&self) -> bool {
        Self::is_acceptable(self@)
    }

    /// What becomes of a raw string once the format check has answered.
    ///
    /// Emptiness comes first: an empty string is reported as empty, whatever
    /// the format check said of it.
    pub fn classify(raw: &str, format_ok: bool) -> (verdict: Result<(), EmailParseError>)
        ensures
            verdict == if raw@.len() == 0 {
                Err::<(), _>(EmailParseError::EmptyEmail)
            } else if !format_ok {
                Err::<(), _>(EmailParseError::InvalidFormat)
            } else {
                Ok::<(), EmailParseError>(())
            },
    {
        if raw.is_empty() {
            Err(EmailParseError::EmptyEmail)
        } else if !format_ok {
            Err(EmailParseError::InvalidFormat)
        } else {
            Ok(())
        }
    }

    /// Accepts the strings that can be an email address, and tells an empty
    /// string from one in the wrong format.
    pub fn parse(email: String) -> (result: Result<Email, EmailParseError>)
        ensures
            email@.len() == 0 ==> result == Err::<Email, _>(EmailParseError::EmptyEmail),
            email@.len() > 0 && !Self::is_acceptable(email@) ==> result == Err::<Email, _>(
                EmailParseError::InvalidFormat,
            ),
            Self::is_acceptable(email@) ==> result is Ok && result->Ok_0@ == email@,
    {
        let format_ok = has_email_format(email.as_str());
        match Self::classify(email.as_str(), format_ok) {
            Ok(()) => Ok(Email(email)),
            Err(error) => Err(error),
        }
    }

    /// The text of the address, which is an acceptable one.
    pub fn as_ref(&self) -> (text: &str)
        ensures
            text@ == self@,
            Self::is_acceptable(text@),
    {
        proof {
            use_type_invariant(self);
        }
        self.0.as_str()
    }
}

impl Clone for Email {
    fn clone(&self) -> (copy: Self)
        ensures
            copy@ == self@,
    {
        proof {
            use_type_invariant(self);
        }
        Email(self.0.clone())
    }
}

impl PartialEq for Email {
    fn eq(&self, other: &Self) -> (equal: bool) {
        self.0 == other.0
    }
}

impl vstd::std_specs::cmp::PartialEqSpecImpl for Email {
    open spec fn obeys_eq_spec() -> bool {
        true
    }

    open spec fn eq_spec(&self, other: &Self) -> bool {
        self@ == other@
    }
}

impl Eq for Email {}

} // verus!
