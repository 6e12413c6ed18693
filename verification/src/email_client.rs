//! The mail client of the web routes: it knows where the site lives, frames
//! what it sends with the site's links, and prepares each message for the
//! transport.

use crate::domain::SubscriberEmail;
use crate::email_delivery_worker::email_client::{mailbox_parses, sender_line, Draft};
use crate::email_template::{unsubscribe_link, unsubscribe_link_text};
use vstd::prelude::*;
use vstd::string::*;

verus! {

/// What stands before the content in the HTML body of a newsletter.
pub const HTML_HEAD: &'static str =
    "\n            <div style=\"font-family: sans-serif; max-width: 600px; margin: 0 auto;\">\n                ";

/// What stands between the content and the unsubscribe link in the HTML body
/// of a newsletter.
pub const HTML_MIDDLE: &'static str =
    "\n        \n                <hr style=\"border: none; border-top: 1px solid #ddd; margin: 20px 0;\"/>\n        \n                <footer style=\"font-size: 12px; color: #666;\">\n                    <p>\n                        You're receiving this because you subscribed to Joe Hasson's Blog.<br/>\n                        <a href=\"";

/// What stands after the unsubscribe link in the HTML body of a newsletter.
pub const HTML_TAIL: &'static str =
    "\" style=\"color: #666;\">Unsubscribe</a>\n                    </p>\n                </footer>\n            </div>";

/// What stands between the content and the unsubscribe link in the plain
/// body of a newsletter.
pub const TEXT_MIDDLE: &'static str =
    "\n\n-------------------------------------------\nYou're receiving this because you subscribed to Joe Hasson's Blog.\nUnsubscribe: ";

/// What stands after the unsubscribe link in the plain body of a newsletter.
pub const TEXT_TAIL: &'static str = "\n";

/// The path of the confirmation route, up to the token.
pub const CONFIRM_PATH: &'static str = "/subscriptions/confirm?subscription_token=";

/// Subject of the email that asks a new subscriber to confirm.
pub const CONFIRMATION_SUBJECT: &'static str = "Welcome!";

/// What stands before the confirmation link in the HTML body.
pub const CONFIRMATION_HTML_HEAD: &'static str =
    "\n            Thanks for signing up to my blog! \n            <br /> Click <a href=\"";

/// What stands after the confirmation link in the HTML body.
pub const CONFIRMATION_HTML_TAIL: &'static str =
    "\">here</a>\n            to confirm your subscription.\n            ";

/// What stands before the confirmation link in the plain body.
pub const CONFIRMATION_TEXT_HEAD: &'static str =
    "\n            Thanks for signing up to my blog!\n            Visit ";

/// What stands after the confirmation link in the plain body.
pub const CONFIRMATION_TEXT_TAIL: &'static str = " to confirm your subscription.\n            ";

/// Why a message did not go out.
#[derive(Debug)]
pub enum EmailClientError {
    /// The recipient did not read as a mailbox.
    AddressError(lettre::address::AddressError),
    /// The message could not be built.
    EmailError(lettre::error::Error),
    /// The transport did not take the message.
    TransportError(&'static str),
}

/// The same failure, as this client names it.
pub fn client_error(failure: crate::email_delivery_worker::email_client::EmailClientError) -> (named:
    EmailClientError)
    ensures
        named == match failure {
            crate::email_delivery_worker::email_client::EmailClientError::Address(e) => {
                EmailClientError::AddressError(e)
            },
            crate::email_delivery_worker::email_client::EmailClientError::Error(e) => {
                EmailClientError::EmailError(e)
            },
            crate::email_delivery_worker::email_client::EmailClientError::TransportError(text) => {
                EmailClientError::TransportError(text)
            },
        },
{
    match failure {
        crate::email_delivery_worker::email_client::EmailClientError::Address(e) => {
            EmailClientError::AddressError(e)
        },
        crate::email_delivery_worker::email_client::EmailClientError::Error(e) => {
            EmailClientError::EmailError(e)
        },
        crate::email_delivery_worker::email_client::EmailClientError::TransportError(text) => {
            EmailClientError::TransportError(text)
        },
    }
}

/// The HTML body of a newsletter with content `html` and unsubscribe link
/// `link`.
pub open spec fn newsletter_html(link: Seq<char>, html: Seq<char>) -> Seq<char> {
    HTML_HEAD@ + html + HTML_MIDDLE@ + link + HTML_TAIL@
}

/// The plain body of a newsletter with content `text` and unsubscribe link
/// `link`.
pub open spec fn newsletter_text(link: Seq<char>, text: Seq<char>) -> Seq<char> {
    text + TEXT_MIDDLE@ + link + TEXT_TAIL@
}

/// The address at which `token` confirms a subscription on the site at
/// `base`.
pub open spec fn confirmation_link_text(base: Seq<char>, token: Seq<char>) -> Seq<char> {
    base + CONFIRM_PATH@ + token
}

/// The HTML body of the email that asks to confirm at `link`.
pub open spec fn confirmation_html(link: Seq<char>) -> Seq<char> {
    CONFIRMATION_HTML_HEAD@ + link + CONFIRMATION_HTML_TAIL@
}

/// The plain body of the email that asks to confirm at `link`.
pub open spec fn confirmation_text(link: Seq<char>) -> Seq<char> {
    CONFIRMATION_TEXT_HEAD@ + link + CONFIRMATION_TEXT_TAIL@
}

/// The two bodies of an email.
#[derive(Debug)]
pub struct Bodies {
    pub html: String,
    pub text: String,
}

/// The mail client of the routes: a sender, and the address of the site.
pub struct EmailClient {
    mailer: crate::email_delivery_worker::email_client::EmailClient,
    app_base_url: String,
}

impl EmailClient {
    /// The address of the site that the client's links point to.
    pub closed spec fn base_url(&self) -> Seq<char> {
        self.app_base_url@
    }

    /// The sender's address.
    pub closed spec fn sender(&self) -> Seq<char> {
        self.mailer@
    }

    /// A client for the site at `app_base_url` that sends as `from` under the
    /// blog's name, if the sender line reads as a mailbox; otherwise the text
    /// `Invalid sender`.
    pub fn new(from: &str, app_base_url: String) -> (made: Result<EmailClient, String>)
        ensures
            made is Ok == mailbox_parses(sender_line(from@)),
            made matches Ok(client) ==> client.sender() == from@ && client.base_url()
                == app_base_url@,
            made matches Err(message) ==> message@ == "Invalid sender"@,
    {
        match crate::email_delivery_worker::email_client::EmailClient::new(from) {
            Ok(mailer) => Ok(EmailClient { mailer, app_base_url }),
            Err(message) => Err(message),
        }
    }

    /// The bodies of a newsletter for `subscriber_id`: the content, framed,
    /// with the footer's link unsubscribing that subscriber on the client's
    /// site.
    pub fn newsletter_bodies(&self, subscriber_id: u128, html_content: &str, text_content: &str) -> (bodies:
        Bodies)
        ensures
            bodies.html@ == newsletter_html(
                unsubscribe_link_text(self.base_url(), subscriber_id),
                html_content@,
            ),
            bodies.text@ == newsletter_text(
                unsubscribe_link_text(self.base_url(), subscriber_id),
                text_content@,
            ),
    {
        let link = unsubscribe_link(self.app_base_url.as_str(), subscriber_id);
        let mut html = String::from_str(HTML_HEAD);
        html.append(html_content);
        html.append(HTML_MIDDLE);
        html.append(link.as_str());
        html.append(HTML_TAIL);
        let mut text = String::from_str(text_content);
        text.append(TEXT_MIDDLE);
        text.append(link.as_str());
        text.append(TEXT_TAIL);
        Bodies { html, text }
    }

    /// The bodies of the email that asks a new subscriber to confirm with
    /// `subscription_token` on the client's site.
    pub fn confirmation_bodies(&self, subscription_token: &str) -> (bodies: Bodies)
        ensures
            bodies.html@ == confirmation_html(
                confirmation_link_text(self.base_url(), subscription_token@),
            ),
            bodies.text@ == confirmation_text(
                confirmation_link_text(self.base_url(), subscription_token@),
            ),
    {
        let mut link = String::from_str(self.app_base_url.as_str());
        link.append(CONFIRM_PATH);
        link.append(subscription_token);
        let mut html = String::from_str(CONFIRMATION_HTML_HEAD);
        html.append(link.as_str());
        html.append(CONFIRMATION_HTML_TAIL);
        let mut text = String::from_str(CONFIRMATION_TEXT_HEAD);
        text.append(link.as_str());
        text.append(CONFIRMATION_TEXT_TAIL);
        Bodies { html, text }
    }

    /// The mailbox every message of the client goes out under.
    pub closed spec fn sender_mailbox(&self) -> lettre::message::Mailbox {
        self.mailer.sender_mailbox()
    }

    /// Drafts the newsletter with `subject` and the given content for one
    /// subscriber, framed as [`Self::newsletter_bodies`] says. A recipient
    /// that reads as a mailbox gets its draft; any other is refused with an
    /// address error. The caller has the draft built and hands the message to
    /// the transport.
    pub fn send_email_to_subscriber<'a>(
        &'a self,
        subscriber_id: u128,
        subscriber_email: SubscriberEmail,
        subject: &str,
        html_content: &str,
        text_content: &str,
    ) -> (drafted: Result<Draft<'a>, EmailClientError>)
        ensures
            drafted is Ok == mailbox_parses(subscriber_email@),
            drafted matches Err(e) ==> e is AddressError,
            drafted matches Ok(draft) ==> {
                &&& *draft.sender == self.sender_mailbox()
                &&& draft.subject@ == subject@
                &&& draft.html@ == newsletter_html(
                    unsubscribe_link_text(self.base_url(), subscriber_id),
                    html_content@,
                )
                &&& draft.text@ == newsletter_text(
                    unsubscribe_link_text(self.base_url(), subscriber_id),
                    text_content@,
                )
            },
    {
        let bodies = self.newsletter_bodies(subscriber_id, html_content, text_content);
        match self.mailer.send_email(
            &subscriber_email,
            subject,
            bodies.html.as_str(),
            bodies.text.as_str(),
        ) {
            Ok(draft) => Ok(draft),
            Err(failure) => Err(client_error(failure)),
        }
    }

    /// Drafts the email that asks `subscriber_email` to confirm with
    /// `subscription_token`, with the bodies of
    /// [`Self::confirmation_bodies`]. A recipient that reads as a mailbox
    /// gets its draft; any other is refused with an address error. The caller
    /// has the draft built and hands the message to the transport.
    pub fn send_confirmation_email<'a>(
        &'a self,
        subscription_token: &str,
        subscriber_email: SubscriberEmail,
    ) -> (drafted: Result<Draft<'a>, EmailClientError>)
        ensures
            drafted is Ok == mailbox_parses(subscriber_email@),
            drafted matches Err(e) ==> e is AddressError,
            drafted matches Ok(draft) ==> {
                &&& *draft.sender == self.sender_mailbox()
                &&& draft.subject@ == CONFIRMATION_SUBJECT@
                &&& draft.html@ == confirmation_html(
                    confirmation_link_text(self.base_url(), subscription_token@),
                )
                &&& draft.text@ == confirmation_text(
                    confirmation_link_text(self.base_url(), subscription_token@),
                )
            },
    {
        let bodies = self.confirmation_bodies(subscription_token);
        match self.mailer.send_email(
            &subscriber_email,
            CONFIRMATION_SUBJECT,
            bodies.html.as_str(),
            bodies.text.as_str(),
        ) {
            Ok(draft) => Ok(draft),
            Err(failure) => Err(client_error(failure)),
        }
    }
}

} // verus!
