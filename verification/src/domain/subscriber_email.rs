use validator::ValidateEmail;
use vstd::prelude::*;
use vstd::string::StringExecFns;

verus! {

/// Whether the text is a syntactically valid email address, as the HTML5
/// email-address rule defines it.
pub uninterp spec fn email_ok(s: Seq<char>) -> bool;

/// Relies on validator's `ValidateEmail::validate_email` for `&str`: the
/// HTML5-spec email-address check, a function of the characters alone.
#[verifier::external_body]
fn email_check(s: &str) -> (b: bool)
    ensures
        b == email_ok(s@),
{
    s.validate_email()
}

/// What a rejected email's error message appends to the raw input.
pub open spec fn email_error_tail() -> Seq<char> {
    " is not a valid email."@
}

/// An email address that is valid by construction: the validating `parse` is
/// the only way to obtain one, so it is never re-parsed or re-validated.
#[derive(Debug)]
pub struct SubscriberEmail(String);

impl View for SubscriberEmail {
    type V = Seq<char>;

    closed spec fn view(&self) -> Seq<char> {
        self.0@
    }
}

impl SubscriberEmail {
    #[verifier::type_invariant]
    spec fn valid_by_construction(self) -> bool {
        email_ok(self@)
    }

    /// Validates raw text into a `SubscriberEmail`, or reports why it is not
    /// a valid email address.
    pub fn parse(s: String) -> (r: Result<SubscriberEmail, String>)
        ensures
            r is Ok <==> email_ok(s@),
            r matches Ok(e) ==> e@ == s@,
            r matches Err(m) ==> m@ == s@ + email_error_tail(),
    {
        if email_check(s.as_str()) {
            Ok(SubscriberEmail(s))
        } else {
            Err(s.concat(" is not a valid email."))
        }
    }

    /// Reads the validated address back as text. Parse-then-trust: what
    /// comes out always satisfies the email-syntax rule, with no re-check at
    /// the use site.
    pub fn as_ref(&self) -> (r: &str)
        ensures
            r@ == self@,
            email_ok(self@),
    {
        proof {
            use_type_invariant(&*self);
        }
        self.0.as_str()
    }
}

/// Email validation is a pure function of the text: two runs on the same raw
/// input always agree on acceptance, so `SubscriberEmail::parse` is
/// idempotent in its success or failure.
pub proof fn lemma_email_validation_deterministic(s1: Seq<char>, s2: Seq<char>)
    requires
        s1 == s2,
    ensures
        email_ok(s1) == email_ok(s2),
{
}

} // verus!
