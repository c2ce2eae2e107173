use vstd::prelude::*;

use crate::domain::validation_error::ValidationError;

verus! {

/// Whether `s` is an email address as the HTML5 rules for a valid e-mail
/// address have it, internationalised domains included.
pub uninterp spec fn email_syntax_ok(s: Seq<char>) -> bool;

/// `validator::validate_email` checks `s` against the HTML5 rules for an email
/// address. Trusted: the verdict is the crate's and depends on the text alone;
/// the crate turns down the empty text and any text without an `@` before it
/// looks further.
#[verifier::external_body]
fn validate_email(s: &str) -> (ok: bool)
    ensures
        ok == email_syntax_ok(s@),
        ok ==> s@.len() > 0 && s@.contains('@'),
{
    validator::validate_email(s)
}

/// The reason given for an address that was turned down.
pub open spec fn email_rejection() -> Seq<char> {
    "is not a valid subscriber email."@
}

/// An email address to send the newsletter to. A value of this type is a
/// syntactically valid address.
#[derive(Debug)]
pub struct SubscriberEmail {
    text: String,
}

impl View for SubscriberEmail {
    type V = Seq<char>;

    closed spec fn view(&self) -> Seq<char> {
        self.text@
    }
}

impl SubscriberEmail {
    #[verifier::type_invariant]
    spec fn well_formed(self) -> bool {
        &&& email_syntax_ok(self.text@)
        &&& self.text@.contains('@')
    }

    /// Makes an address of `s`, or says why it cannot be one.
    pub fn parse(s: String) -> (r: Result<SubscriberEmail, ValidationError>)
        ensures
            r is Ok <==> email_syntax_ok(s@),
            r is Ok ==> s@.contains('@'),
            r matches Ok(email) ==> email@ == s@,
            r matches Err(e) ==> e.value@ == s@ && e.reason@ == email_rejection(),
    {
        if validate_email(s.as_str()) {
            Ok(SubscriberEmail { text: s })
        } else {
            Err(ValidationError::new(s, "is not a valid subscriber email."))
        }
    }

    /// The address as text. Whatever address is at hand, it is a valid one.
    pub fn as_ref(&self) -> (s: &str)
        ensures
            s@ == self@,
            email_syntax_ok(self@),
            self@.contains('@'),
    {
        proof {
            use_type_invariant(self);
        }
        self.text.as_str()
    }
}

impl AsRef<str> for SubscriberEmail {
    fn as_ref(&self) -> (s: &str)
        ensures
            s@ == self@,
    {
        self.text.as_str()
    }
}

impl Clone for SubscriberEmail {
    fn clone(&self) -> (copy: Self)
        ensures
            copy@ == self@,
    {
        proof {
            use_type_invariant(self);
        }
        SubscriberEmail { text: self.text.clone() }
    }
}

} // verus!
