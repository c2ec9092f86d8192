use vstd::prelude::*;
use vstd::string::*;

verus! {

/// What `validator::validate_email` answers for the address `s`.
pub uninterp spec fn email_is_valid(s: Seq<char>) -> bool;

/// `s` holds exactly one `@`, with a local part of 1 to 64 characters
/// before it and at most 255 characters after it.
pub open spec fn email_shape(s: Seq<char>) -> bool {
    exists|i: int|
        #![trigger s[i]]
        0 < i <= 64 && i < s.len() && s[i] == '@' && s.len() - 1 - i <= 255
            && forall|j: int| 0 <= j < s.len() && j != i ==> s[j] != '@'
}

/// Calls `validator::validate_email`.
///
/// Trusted: the answer is named `email_is_valid`. Beside the name, the
/// contract states what the function's first checks plainly show: an empty
/// address or one without `@` is refused; an accepted address splits at its
/// last `@` into a local part that matches `[a-z0-9.!#$%&'*+/=?^_`{|}~-]+`
/// (so has no `@` and is not empty) of at most 64 characters and a domain
/// part of at most 255 characters. What the regular expressions and the
/// IDNA conversion accept beyond that is left unsaid.
#[verifier::external_body]
fn validate_email(s: &str) -> (r: bool)
    ensures
        r == email_is_valid(s@),
        r ==> email_shape(s@),
{
    validator::validate_email(s)
}

/// An email address that `validator::validate_email` accepts.
#[derive(Debug)]
pub struct SubscriberEmail(String);

impl View for SubscriberEmail {
    type V = Seq<char>;

    /// The address as text.
    closed spec fn view(&self) -> Seq<char> {
        self.0@
    }
}

impl SubscriberEmail {
    #[verifier::type_invariant]
    closed spec fn accepted(&self) -> bool {
        email_is_valid(self.0@) && email_shape(self.0@)
    }
}

/// The message of a refused address: the address, then
/// ` is not a valid email`.
pub open spec fn invalid_email_message(email: Seq<char>) -> Seq<char> {
    email + " is not a valid email"@
}

impl TryFrom<String> for SubscriberEmail {
    type Error = String;

    /// Accepts `email` exactly when the validator does; the accepted value
    /// holds `email` unchanged, a refusal carries a message naming it.
    fn try_from(email: String) -> (result: Result<Self, Self::Error>)
        ensures
            result is Ok <==> email_is_valid(email@),
            result is Ok ==> email_shape(email@),
            result matches Ok(e) ==> e@ == email@,
            result matches Err(msg) ==> msg@ == invalid_email_message(email@),
            result matches Err(msg) ==> msg@ == email@ + " is not a valid email"@,
    {
        if validate_email(email.as_str()) {
            Ok(SubscriberEmail(email))
        } else {
            let msg = email.concat(" is not a valid email");
            proof {
                reveal_strlit(" is not a valid email");
            }
            Err(msg)
        }
    }
}

// The refusal message is a `String` built at run time, which no spec value
// can name; the exact contract stands on `try_from` itself, so the generic
// specification is not claimed.
impl vstd::std_specs::convert::TryFromSpecImpl<String> for SubscriberEmail {
    open spec fn obeys_try_from_spec() -> bool {
        false
    }

    closed spec fn try_from_spec(v: String) -> Result<Self, String> {
        if email_is_valid(v@) {
            Ok(SubscriberEmail(v))
        } else {
            Err(arbitrary())
        }
    }
}

impl SubscriberEmail {
    /// The address held. It is one the validator accepts, and it has the
    /// shape `email_shape` describes.
    pub fn as_ref(&self) -> (s: &str)
        ensures
            s@ == self@,
            email_is_valid(self@),
            email_shape(self@),
    {
        proof {
            use_type_invariant(self);
        }
        self.0.as_str()
    }
}

} // verus!
