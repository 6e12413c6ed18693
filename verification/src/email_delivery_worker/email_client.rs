//! The mail client of the delivery worker: it holds the sender and turns a
//! task into the message that goes to the transport.

use crate::domain::SubscriberEmail;
use vstd::prelude::*;
use vstd::string::*;

verus! {

/// A sender or recipient as the mail library holds it. Opaque.
#[verifier::external_type_specification]
#[verifier::external_body]
pub struct ExMailbox(lettre::message::Mailbox);

/// A message ready for a transport. Opaque.
#[verifier::external_type_specification]
#[verifier::external_body]
pub struct ExMessage(lettre::Message);

/// Why the mail library could not build a message. Opaque.
#[verifier::external_type_specification]
#[verifier::external_body]
pub struct ExMessageError(lettre::error::Error);

/// What the client reports when the transport does not take a message.
pub const TRANSPORT_FAILURE: &'static str = "Failed to send email";

/// Whether `text` reads as a mailbox, an address with or without a display
/// name: what `lettre::message::Mailbox::from_str` accepts.
pub uninterp spec fn mailbox_parses(text: Seq<char>) -> bool;

/// Why a message did not go out.
#[derive(Debug)]
pub enum EmailClientError {
    /// The recipient did not read as a mailbox.
    Address(lettre::address::AddressError),
    /// The message could not be built.
    Error(lettre::error::Error),
    /// The transport did not take the message.
    TransportError(&'static str),
}

/// Reads `text` as a mailbox with `lettre::message::Mailbox::from_str`, which
/// decides from the text alone.
#[verifier::external_body]
fn parse_mailbox(text: &str) -> (parsed: Result<
    lettre::message::Mailbox,
    lettre::address::AddressError,
>)
    ensures
        parsed is Ok == mailbox_parses(text@),
{
    text.parse::<lettre::message::Mailbox>()
}

/// A message as the client hands it to the mail library: who sends it, who
/// gets it, what it is about, and its two bodies.
pub struct Draft<'a> {
    pub sender: &'a lettre::message::Mailbox,
    pub recipient: lettre::message::Mailbox,
    pub subject: String,
    /// The plain body.
    pub text: String,
    /// The HTML body.
    pub html: String,
}

/// Builds the message of a draft through `lettre::Message::builder` and
/// `MultiPart::alternative_plain_html`, the draft's plain body as the plain
/// part and its HTML body as the HTML part. The builder reads the headers it
/// was given back and may find the sender or the recipient missing; and the
/// message carries the date of the call and a random part boundary. So
/// nothing is said of the result.
#[verifier::external_body]
fn build_message(draft: Draft) -> Result<lettre::Message, lettre::error::Error> {
    lettre::Message::builder()
        .from(draft.sender.clone())
        .to(draft.recipient)
        .subject(draft.subject)
        .multipart(lettre::message::MultiPart::alternative_plain_html(draft.text, draft.html))
}

/// The line a sender address is read from: the blog's display name, then the
/// address in angle brackets.
pub open spec fn sender_line(address: Seq<char>) -> Seq<char> {
    "Joe Hasson Blog <"@ + address + ">"@
}

/// The mail client: the sender every message goes out under.
pub struct EmailClient {
    sender: lettre::message::Mailbox,
    address: String,
}

impl View for EmailClient {
    type V = Seq<char>;

    /// The sender's address.
    closed spec fn view(&self) -> Seq<char> {
        self.address@
    }
}

impl EmailClient {
    /// A client that sends as `sender_email` under the blog's name, if the
    /// sender line reads as a mailbox; otherwise the text `Invalid sender`.
    pub fn new(sender_email: &str) -> (made: Result<EmailClient, String>)
        ensures
            made is Ok == mailbox_parses(sender_line(sender_email@)),
            made matches Ok(client) ==> client@ == sender_email@,
            made matches Err(message) ==> message@ == "Invalid sender"@,
    {
        let mut line = String::from_str("Joe Hasson Blog <");
        line.append(sender_email);
        line.append(">");
        match parse_mailbox(line.as_str()) {
            Ok(sender) => Ok(EmailClient { sender, address: String::from_str(sender_email) }),
            Err(_) => Err(String::from_str("Invalid sender")),
        }
    }

    /// The mailbox every message of the client goes out under.
    pub closed spec fn sender_mailbox(&self) -> lettre::message::Mailbox {
        self.sender
    }

    /// What the client reports of a message the mail library was asked to
    /// build: the message, or the library's refusal as the client's error.
    pub fn prepared(built: Result<lettre::Message, lettre::error::Error>) -> (prepared: Result<
        lettre::Message,
        EmailClientError,
    >)
        ensures
            prepared == match built {
                Ok(message) => Ok::<lettre::Message, EmailClientError>(message),
                Err(refusal) => Err::<lettre::Message, EmailClientError>(
                    EmailClientError::Error(refusal),
                ),
            },
    {
        match built {
            Ok(message) => Ok(message),
            Err(refusal) => Err(EmailClientError::Error(refusal)),
        }
    }

    /// The draft for `recipient`, given how the recipient's address read as a
    /// mailbox: an address that did not read is reported as such; for every
    /// other the draft goes from the client's sender to that mailbox, with
    /// the subject and the two bodies as given.
    pub fn draft_for<'a>(
        &'a self,
        recipient: Result<lettre::message::Mailbox, lettre::address::AddressError>,
        subject: &str,
        html_content: &str,
        text_content: &str,
    ) -> (drafted: Result<Draft<'a>, EmailClientError>)
        ensures
            match recipient {
                Ok(mailbox) => drafted matches Ok(draft) && *draft.sender == self.sender_mailbox()
                    && draft.recipient == mailbox && draft.subject@ == subject@ && draft.text@
                    == text_content@ && draft.html@ == html_content@,
                Err(reason) => drafted matches Err(EmailClientError::Address(given)) && given
                    == reason,
            },
    {
        match recipient {
            Ok(mailbox) => Ok(
                Draft {
                    sender: &self.sender,
                    recipient: mailbox,
                    subject: String::from_str(subject),
                    text: String::from_str(text_content),
                    html: String::from_str(html_content),
                },
            ),
            Err(reason) => Err(EmailClientError::Address(reason)),
        }
    }

    /// Drafts the message that carries `subject` with its HTML and plain text
    /// bodies from the client's sender to `recipient`. A recipient that reads
    /// as a mailbox gets its draft, which holds the subject and the bodies as
    /// given; any other is refused with an address error. The caller has the
    /// draft built and hands the message to the transport.
    pub fn send_email<'a>(
        &'a self,
        recipient: &SubscriberEmail,
        subject: &str,
        html_content: &str,
        text_content: &str,
    ) -> (drafted: Result<Draft<'a>, EmailClientError>)
        ensures
            drafted is Ok == mailbox_parses(recipient@),
            drafted matches Err(e) ==> e is Address,
            drafted matches Ok(draft) ==> *draft.sender == self.sender_mailbox() && draft.subject@
                == subject@ && draft.text@ == text_content@ && draft.html@ == html_content@,
    {
        let mailbox = parse_mailbox(recipient.as_str());
        self.draft_for(mailbox, subject, html_content, text_content)
    }
}

impl<'a> Draft<'a> {
    /// Has the mail library build the message of the draft. The library may
    /// refuse, which is reported as the client's error of that kind; no other
    /// error comes of it.
    pub fn into_message(self) -> (prepared: Result<lettre::Message, EmailClientError>)
        ensures
            prepared matches Err(e) ==> e is Error,
    {
        EmailClient::prepared(build_message(self))
    }
}

/// What the client reports once the transport has answered: success if it
/// took the message, a transport error otherwise.
pub fn delivery_outcome(accepted: bool) -> (outcome: Result<(), EmailClientError>)
    ensures
        accepted ==> outcome is Ok,
        !accepted ==> (outcome matches Err(EmailClientError::TransportError(message))
            && message@ == TRANSPORT_FAILURE@),
{
    if accepted {
        Ok(())
    } else {
        Err(EmailClientError::TransportError(TRANSPORT_FAILURE))
    }
}

} // verus!
