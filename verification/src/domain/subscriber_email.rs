use vstd::prelude::*;

verus! {

/// Whether a text is an email address by the rules of HTML5 for a valid
/// e-mail address, with the length limits of RFC 5321 on its two parts and
/// with internationalised domain names admitted.
pub uninterp spec fn is_valid_email(text: Seq<char>) -> bool;

/// Asks `validator::validate_email` whether `text` is an email address. The
/// answer depends on the text alone; it is believed to be `is_valid_email` of
/// it, not proved.
#[verifier::external_body]
fn validate_email(text: &str) -> (valid: bool)
    ensures
        valid == is_valid_email(text@),
{
    validator::validate_email(text)
}

/// What `parse` answers for a text that is no email address.
pub open spec fn email_rejection(text: Seq<char>) -> Seq<char> {
    text + " is not a valid subscriber email."@
}

/// Says that `text` is no email address.
pub fn reject_email(text: String) -> (reason: String)
    ensures
        reason@ == email_rejection(text@),
{
    text.concat(" is not a valid subscriber email.")
}

/// A subscriber's email address: a text that passed mailbox validation.
#[derive(Debug)]
pub struct SubscriberEmail(String);

impl View for SubscriberEmail {
    type V = Seq<char>;

    closed spec fn view(&self) -> Seq<char> {
        self.0@
    }
}

impl SubscriberEmail {
    #[verifier::type_invariant]
    spec fn holds_an_email(self) -> bool {
        is_valid_email(self.0@)
    }

    /// Accepts `s` as an email address if it is one, and says why not
    /// otherwise.
    pub fn parse(s: String) -> (parsed: Result<SubscriberEmail, String>)
        ensures
            is_valid_email(s@) ==> parsed is Ok && parsed->Ok_0@ == s@,
            !is_valid_email(s@) ==> parsed is Err && parsed->Err_0@ == email_rejection(s@),
    {
        if validate_email(s.as_str()) {
            Ok(SubscriberEmail(s))
        } else {
            Err(reject_email(s))
        }
    }

    /// The address as text. It is always a valid email address.
    pub fn as_ref(&self) -> (text: &str)
        ensures
            text@ == self@,
            is_valid_email(self@),
    {
        proof {
            use_type_invariant(self);
        }
        self.0.as_str()
    }
}

impl Clone for SubscriberEmail {
    fn clone(&self) -> (copy: Self)
        ensures
            copy@ == self@,
    {
        proof {
            use_type_invariant(self);
        }
        SubscriberEmail(self.0.clone())
    }
}

} // verus!
