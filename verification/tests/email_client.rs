use delivery_queue::domain::SubscriberEmail;
use delivery_queue::email_delivery_worker::email_client::{
    delivery_outcome, EmailClient, EmailClientError,
};
use lettre::message::Mailbox;
use lettre::transport::stub::AsyncStubTransport;
use lettre::AsyncTransport;

fn block_on<F: std::future::Future>(future: F) -> F::Output {
    tokio::runtime::Builder::new_current_thread().build().unwrap().block_on(future)
}

fn recipient() -> SubscriberEmail {
    SubscriberEmail::parse("ursula_le_guin@example.com".to_string()).unwrap()
}

#[test]
fn email_client_err_if_server_errors() {
    let stub_client = AsyncStubTransport::new_error();
    let client = EmailClient::new("test@tld.com").unwrap();
    let message = client
        .send_email(&recipient(), "A subject", "Some content", "Some content")
        .unwrap()
        .into_message()
        .unwrap();
    let sent = block_on(stub_client.send(message));
    assert!(delivery_outcome(sent.is_ok()).is_err());
}

#[test]
fn email_client_ok_if_server_ok() {
    let stub_client = AsyncStubTransport::new_ok();
    let client = EmailClient::new("test@tld.com").unwrap();
    let message = client
        .send_email(&recipient(), "A subject", "Some content", "Some content")
        .unwrap()
        .into_message()
        .unwrap();
    let sent = block_on(stub_client.send(message));
    assert!(delivery_outcome(sent.is_ok()).is_ok());
}

#[test]
fn sender_must_read_as_a_mailbox() {
    assert!(EmailClient::new("test@tld.com").is_ok());
    for bad in ["", "test", "test@", "@tld.com", "te st@tld.com", "a@b.com>"] {
        match EmailClient::new(bad) {
            Err(message) => assert_eq!(message, "Invalid sender"),
            Ok(_) => panic!("{:?} should not be accepted as a sender", bad),
        }
    }
}

#[test]
fn message_goes_from_the_blog_to_the_recipient() {
    let client = EmailClient::new("test@tld.com").unwrap();
    let draft =
        client.send_email(&recipient(), "The subject", "<p>The html</p>", "The text").unwrap();
    assert_eq!(draft.sender.to_string(), "Joe Hasson Blog <test@tld.com>");
    assert_eq!(draft.recipient.to_string(), "ursula_le_guin@example.com");
    assert_eq!(draft.subject, "The subject");
    assert_eq!(draft.text, "The text");
    assert_eq!(draft.html, "<p>The html</p>");
    let message = draft.into_message().unwrap();
    let envelope = message.envelope();
    assert_eq!(envelope.from().unwrap().to_string(), "test@tld.com");
    let to: Vec<String> = envelope.to().iter().map(|address| address.to_string()).collect();
    assert_eq!(to, vec!["ursula_le_guin@example.com".to_string()]);
    let formatted = String::from_utf8(message.formatted()).unwrap();
    assert!(formatted.contains("From: \"Joe Hasson Blog\" <test@tld.com>\r\n"));
    assert!(formatted.contains("To: ursula_le_guin@example.com\r\n"));
    assert!(formatted.contains("Subject: The subject\r\n"));
    assert!(formatted.contains("Content-Type: multipart/alternative;"));
    assert!(formatted.contains("Content-Type: text/plain; charset=utf-8"));
    assert!(formatted.contains("The text"));
    assert!(formatted.contains("Content-Type: text/html; charset=utf-8"));
    assert!(formatted.contains("<p>The html</p>"));
    let plain = formatted.find("The text").unwrap();
    let html = formatted.find("<p>The html</p>").unwrap();
    assert!(plain < html);
}

#[test]
fn recipient_that_did_not_read_is_an_address_error() {
    let client = EmailClient::new("test@tld.com").unwrap();
    let unreadable = "no address here".parse::<Mailbox>();
    assert!(unreadable.is_err());
    let drafted = client.draft_for(unreadable, "s", "h", "t");
    assert!(matches!(drafted, Err(EmailClientError::Address(_))));
}

#[test]
fn recipient_that_read_gets_a_message() {
    let client = EmailClient::new("test@tld.com").unwrap();
    let readable = "Ursula <ursula@example.com>".parse::<Mailbox>();
    let draft = client.draft_for(readable, "s", "h", "t").unwrap();
    assert_eq!(draft.recipient.to_string(), "Ursula <ursula@example.com>");
    assert_eq!((draft.subject.as_str(), draft.html.as_str(), draft.text.as_str()), ("s", "h", "t"));
    let message = draft.into_message().unwrap();
    assert_eq!(message.envelope().to()[0].to_string(), "ursula@example.com");
}

#[test]
fn subscriber_address_must_read_as_an_address() {
    for good in ["ursula@domain.com", "a.b+c@sub.example.org", "user@1.1.1.1"] {
        let parsed = SubscriberEmail::parse(good.to_string()).unwrap();
        assert_eq!(parsed.as_str(), good);
    }
    for bad in ["", " ", "ursuladomain.com", "@domain.com", "ursula@", "Ursula <u@d.com>"] {
        let refused = SubscriberEmail::parse(bad.to_string()).unwrap_err();
        assert_eq!(refused.email, bad);
        assert_eq!(refused.message(), format!("{} is not a valid subscriber email.", bad));
    }
}

#[test]
fn refusal_to_build_is_the_clients_error() {
    let refused = EmailClient::prepared(Err(lettre::error::Error::MissingTo));
    assert!(matches!(refused, Err(EmailClientError::Error(lettre::error::Error::MissingTo))));
    let client = EmailClient::new("test@tld.com").unwrap();
    let message = client.send_email(&recipient(), "s", "h", "t").unwrap().into_message().unwrap();
    assert!(EmailClient::prepared(Ok(message)).is_ok());
}

#[test]
fn quoted_recipient_is_drafted_but_refused_by_the_builder() {
    let quoted = "\"\\\"a,b\\\"\"@c.d";
    assert_eq!(quoted.chars().count(), 13);
    let recipient = SubscriberEmail::parse(quoted.to_string()).unwrap();
    let client = EmailClient::new("test@tld.com").unwrap();
    let draft = client.send_email(&recipient, "s", "h", "t").unwrap();
    assert_eq!((draft.subject.as_str(), draft.html.as_str(), draft.text.as_str()), ("s", "h", "t"));
    assert!(matches!(
        draft.into_message(),
        Err(EmailClientError::Error(lettre::error::Error::MissingTo))
    ));
}
