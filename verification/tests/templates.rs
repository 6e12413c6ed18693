use delivery_queue::domain::SubscriberEmail;
use delivery_queue::email_client::{EmailClient, EmailClientError};
use delivery_queue::email_template::{html_version, text_version, unsubscribe_link};

const ID: u128 = 0xa1a2a3a4b1b2c1c2d1d2d3d4d5d6d7d8;
const ID_TEXT: &str = "a1a2a3a4-b1b2-c1c2-d1d2-d3d4d5d6d7d8";
const BASE: &str = "https://blog.example.com";

#[test]
fn unsubscribe_link_carries_the_hyphenated_id() {
    assert_eq!(
        unsubscribe_link(BASE, ID),
        "https://blog.example.com/subscriptions/unsubscribe?id=a1a2a3a4-b1b2-c1c2-d1d2-d3d4d5d6d7d8"
    );
    assert_eq!(
        unsubscribe_link("", 0),
        "/subscriptions/unsubscribe?id=00000000-0000-0000-0000-000000000000"
    );
    assert_eq!(
        unsubscribe_link("x", u128::MAX),
        "x/subscriptions/unsubscribe?id=ffffffff-ffff-ffff-ffff-ffffffffffff"
    );
    assert_eq!(
        unsubscribe_link("x", 0x0123456789abcdef_fedcba9876543210),
        "x/subscriptions/unsubscribe?id=01234567-89ab-cdef-fedc-ba9876543210"
    );
    assert_eq!(
        unsubscribe_link("x", 1),
        "x/subscriptions/unsubscribe?id=00000000-0000-0000-0000-000000000001"
    );
}

#[test]
fn html_version_frames_the_content() {
    let html_content = "<h1>News</h1>";
    let link = format!("{}/subscriptions/unsubscribe?id={}", BASE, ID_TEXT);
    let expected = format!(
        r#"
        <div style="font-family: sans-serif; max-width: 600px; margin: 0 auto;">
            {html_content}
    
            <hr style="border: none; border-top: 1px solid #ddd; margin: 20px 0;"/>
    
            <footer style="font-size: 12px; color: #666;">
                <p>
                    You're receiving this because you subscribed to Joe Hasson's Blog.<br/>
                    <a href="{link}" style="color: #666;">Unsubscribe</a>
                </p>
            </footer>
        </div>"#
    );
    assert_eq!(html_version(BASE, ID, html_content), expected);
}

#[test]
fn text_version_appends_the_footer() {
    let text_content = "News";
    let link = format!("{}/subscriptions/unsubscribe?id={}", BASE, ID_TEXT);
    let expected = format!(
        "{text_content}\n\n\
        -------------------------------------------\n\
        You're receiving this because you subscribed to Joe Hasson's Blog.\n\
        Unsubscribe: {link}\n"
    );
    assert_eq!(text_version(BASE, ID, text_content), expected);
    assert_eq!(
        text_version("b", 0, ""),
        "\n\n-------------------------------------------\nYou're receiving this because you subscribed to Joe Hasson's Blog.\nUnsubscribe: b/subscriptions/unsubscribe?id=00000000-0000-0000-0000-000000000000\n"
    );
}

#[test]
fn newsletter_bodies_frame_the_content() {
    let client = EmailClient::new("test@tld.com", BASE.to_string()).unwrap();
    let html_content = "<h1>News</h1>";
    let text_content = "News";
    let unsubscribe_link = format!("{}/subscriptions/unsubscribe?id={}", BASE, ID_TEXT);
    let expected_html = format!(
        r#"
            <div style="font-family: sans-serif; max-width: 600px; margin: 0 auto;">
                {html_content}
        
                <hr style="border: none; border-top: 1px solid #ddd; margin: 20px 0;"/>
        
                <footer style="font-size: 12px; color: #666;">
                    <p>
                        You're receiving this because you subscribed to Joe Hasson's Blog.<br/>
                        <a href="{unsubscribe_link}" style="color: #666;">Unsubscribe</a>
                    </p>
                </footer>
            </div>"#
    );
    let expected_text = format!(
        "{text_content}\n\n\
            -------------------------------------------\n\
            You're receiving this because you subscribed to Joe Hasson's Blog.\n\
            Unsubscribe: {unsubscribe_link}\n"
    );
    let bodies = client.newsletter_bodies(ID, html_content, text_content);
    assert_eq!(bodies.html, expected_html);
    assert_eq!(bodies.text, expected_text);
}

#[test]
fn confirmation_bodies_carry_the_link() {
    let client = EmailClient::new("test@tld.com", "localhost:8000".to_string()).unwrap();
    let confirmation_link =
        format!("{}/subscriptions/confirm?subscription_token={}", "localhost:8000", "tok123");
    let expected_html = format!(
        "
            Thanks for signing up to my blog! 
            <br /> Click <a href=\"{}\">here</a>
            to confirm your subscription.
            ",
        confirmation_link
    );
    let expected_text = format!(
        "
            Thanks for signing up to my blog!
            Visit {} to confirm your subscription.
            ",
        confirmation_link
    );
    let bodies = client.confirmation_bodies("tok123");
    assert_eq!(bodies.html, expected_html);
    assert_eq!(bodies.text, expected_text);
}

#[test]
fn routes_client_refuses_a_bad_sender() {
    match EmailClient::new("nobody", BASE.to_string()) {
        Err(message) => assert_eq!(message, "Invalid sender"),
        Ok(_) => panic!("a sender without a domain should be refused"),
    }
}

#[test]
fn newsletter_message_is_addressed_and_framed() {
    let client = EmailClient::new("test@tld.com", BASE.to_string()).unwrap();
    let subscriber = SubscriberEmail::parse("reader@example.com".to_string()).unwrap();
    let draft = client
        .send_email_to_subscriber(ID, subscriber, "Weekly", "<h1>News</h1>", "News")
        .unwrap();
    assert_eq!(draft.subject, "Weekly");
    assert_eq!(draft.html, client.newsletter_bodies(ID, "<h1>News</h1>", "News").html);
    assert_eq!(draft.text, client.newsletter_bodies(ID, "<h1>News</h1>", "News").text);
    assert_eq!(draft.recipient.to_string(), "reader@example.com");
    let message = draft.into_message().unwrap();
    assert_eq!(message.envelope().to()[0].to_string(), "reader@example.com");
    let formatted = String::from_utf8(message.formatted()).unwrap().replace("=\r\n", "");
    assert!(formatted.contains("Subject: Weekly\r\n"));
    assert!(formatted.contains("<h1>News</h1>"));
    assert!(formatted.contains(ID_TEXT));
}

#[test]
fn confirmation_message_welcomes() {
    let client = EmailClient::new("test@tld.com", BASE.to_string()).unwrap();
    let subscriber = SubscriberEmail::parse("reader@example.com".to_string()).unwrap();
    let draft = client.send_confirmation_email("tok123", subscriber).unwrap();
    assert_eq!(draft.subject, "Welcome!");
    assert_eq!(draft.html, client.confirmation_bodies("tok123").html);
    assert_eq!(draft.text, client.confirmation_bodies("tok123").text);
    let message = draft.into_message().unwrap();
    let formatted = String::from_utf8(message.formatted()).unwrap().replace("=\r\n", "");
    assert!(formatted.contains("Subject: Welcome!\r\n"));
    assert!(formatted.contains("subscription_token=3Dtok123") || formatted.contains("subscription_token=tok123"));
}

#[test]
fn routes_client_names_failures_its_own_way() {
    let transport = delivery_queue::email_delivery_worker::email_client::delivery_outcome(false)
        .unwrap_err();
    match delivery_queue::email_client::client_error(transport) {
        EmailClientError::TransportError(message) => assert_eq!(message, "Failed to send email"),
        other => panic!("unexpected failure: {:?}", other),
    }
}
