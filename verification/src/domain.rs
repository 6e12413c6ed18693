//! Validated values that the rest of the library builds on.

use vstd::prelude::*;
use vstd::string::*;

verus! {

/// Why text was refused as an email address. Opaque: it is carried to
/// whoever reports the failure.
#[verifier::external_type_specification]
#[verifier::external_body]
pub struct ExAddressError(lettre::address::AddressError);

/// Whether `text` reads as an email address of the form user@domain: what
/// `lettre::Address::from_str` accepts.
pub uninterp spec fn address_parses(text: Seq<char>) -> bool;

/// Checks `text` with `lettre::Address::from_str`, which decides from the
/// text alone; the address it builds is dropped, its error is handed on.
#[verifier::external_body]
fn check_address(text: &str) -> (checked: Result<(), lettre::address::AddressError>)
    ensures
        checked is Ok == address_parses(text@),
{
    text.parse::<lettre::Address>().map(|_| ())
}

/// Text that was refused as a subscriber's address, with the reason.
#[derive(Debug)]
pub struct InvalidEmailError {
    pub email: String,
    pub reason: lettre::address::AddressError,
}

/// What is said of text that was refused as a subscriber's address, after the
/// text itself.
pub const INVALID_EMAIL_SUFFIX: &'static str = " is not a valid subscriber email.";

impl InvalidEmailError {
    /// What the refusal says: the refused text, then that it is not a valid
    /// subscriber email.
    pub open spec fn message_text(&self) -> Seq<char> {
        self.email@ + INVALID_EMAIL_SUFFIX@
    }

    /// What the refusal says.
    pub fn message(&self) -> (text: String)
        ensures
            text@ == self.message_text(),
    {
        let mut text = String::from_str(self.email.as_str());
        text.append(INVALID_EMAIL_SUFFIX);
        text
    }
}

/// The address of a subscriber: text that reads as an email address.
#[derive(Debug)]
pub struct SubscriberEmail {
    address: String,
}

impl View for SubscriberEmail {
    type V = Seq<char>;

    closed spec fn view(&self) -> Seq<char> {
        self.address@
    }
}

impl SubscriberEmail {
    #[verifier::type_invariant]
    spec fn valid(self) -> bool {
        address_parses(self.address@)
    }

    /// Accepts `email` if and only if it reads as an email address, and keeps
    /// it letter for letter.
    pub fn parse(email: String) -> (parsed: Result<SubscriberEmail, InvalidEmailError>)
        ensures
            parsed is Ok == address_parses(email@),
            parsed matches Ok(address) ==> address@ == email@,
            parsed matches Err(refused) ==> refused.email@ == email@,
    {
        match check_address(email.as_str()) {
            Ok(()) => Ok(SubscriberEmail { address: email }),
            Err(reason) => Err(InvalidEmailError { email, reason }),
        }
    }

    /// The address as text.
    pub fn as_str(&self) -> (text: &str)
        ensures
            text@ == self@,
            address_parses(text@),
    {
        proof {
            use_type_invariant(self);
        }
        self.address.as_str()
    }
}

} // verus!
