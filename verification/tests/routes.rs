use delivery_queue::domain::SubscriberEmail;
use delivery_queue::email_delivery_queue::{peek_task, DeliveryQueue, StoreError};
use delivery_queue::flash_message::FLASH_KEY;
use delivery_queue::routes::blog::post::post;
use delivery_queue::routes::blog::signup::{
    error_chain_fmt, ErrorChain, FormData, SubscribeError,
};
use delivery_queue::routes::subscriptions::confirm::{
    Parameters, SubscriptionConfirmError, CONFIRMED_FLASH, WELCOME_HTML, WELCOME_SUBJECT,
    WELCOME_TEXT,
};
use delivery_queue::routes::subscriptions::subscribe;
use delivery_queue::routes::subscriptions::subscribe::{
    confirmation_email, enqueue_confirmation_email, generate_subscription_token,
    InsertSubscriberError, StoreTokenError, Subscription,
};
use delivery_queue::routes::subscriptions::unsubscribe::{UnsubscribeError, UNSUBSCRIBED_FLASH};

fn chain(message: &str, causes: &[&str]) -> ErrorChain {
    ErrorChain {
        message: message.to_string(),
        causes: causes.iter().map(|cause| cause.to_string()).collect(),
    }
}

#[test]
fn error_without_causes_is_its_message_and_an_empty_line() {
    assert_eq!(error_chain_fmt("it broke", &vec![]), "it broke\n\n");
    assert_eq!(error_chain_fmt("", &vec![]), "\n\n");
}

#[test]
fn error_with_causes_lists_them_in_order() {
    let causes = vec!["the pool timed out".to_string(), "connection refused".to_string()];
    assert_eq!(
        error_chain_fmt("Failed to acquire a Postgres connection from the pool", &causes),
        "Failed to acquire a Postgres connection from the pool\n\n\
         Caused by:\n\tthe pool timed out\n\
         Caused by:\n\tconnection refused\n"
    );
}

#[test]
fn signup_failures_map_to_statuses() {
    assert_eq!(SubscribeError::ValidationError("bad".to_string()).status_code(), 400);
    assert_eq!(SubscribeError::UnexpectedError(chain("boom", &[])).status_code(), 500);
}

#[test]
fn signup_failures_describe_themselves() {
    assert_eq!(SubscribeError::ValidationError("bad email".to_string()).describe(), "bad email\n\n");
    assert_eq!(
        SubscribeError::UnexpectedError(chain("outer", &["inner", "innermost"])).describe(),
        "outer\n\nCaused by:\n\tinner\nCaused by:\n\tinnermost\n"
    );
}

#[test]
fn signup_form_yields_a_subscriber_address() {
    let form = FormData { email: "ursula@example.com".to_string() };
    assert_eq!(form.try_into_email().unwrap().as_str(), "ursula@example.com");
    let form = FormData { email: "ursula".to_string() };
    assert_eq!(form.try_into_email().unwrap_err().email, "ursula");
}

#[test]
fn subscribe_failures_map_to_statuses() {
    let refused = SubscriberEmail::parse("nope".to_string()).unwrap_err();
    let invalid = subscribe::SubscribeError::ValidationError(refused);
    assert_eq!(invalid.status_code(), 400);
    assert_eq!(
        invalid.describe(),
        "nope is not a valid subscriber email.\n\nCaused by:\n\tnope is not a valid subscriber email.\n"
    );
    let unexpected =
        subscribe::SubscribeError::UnexpectedError(chain("Transaction failed", &["io"]));
    assert_eq!(unexpected.status_code(), 500);
    assert_eq!(unexpected.describe(), "Transaction failed\n\nCaused by:\n\tio\n");
}

#[test]
fn confirm_failures_map_to_statuses_and_share_a_message() {
    let invalid = SubscriptionConfirmError::InvalidSubscriptionToken;
    let unexpected = SubscriptionConfirmError::UnexpectedError(chain(
        "Failed to commit SQL transaction to the database",
        &["connection reset"],
    ));
    assert_eq!(invalid.status_code(), 401);
    assert_eq!(unexpected.status_code(), 500);
    let sentence = "An error was encountered while trying to confirm a subscription.";
    assert_eq!(invalid.message(), sentence);
    assert_eq!(unexpected.message(), sentence);
    assert_eq!(invalid.describe(), format!("{}\n\n", sentence));
    assert_eq!(
        unexpected.describe(),
        format!("{}\n\nCaused by:\n\tconnection reset\n", sentence)
    );
}

#[test]
fn confirmation_is_followed_by_a_welcome() {
    assert_eq!(WELCOME_SUBJECT, "Welcome!");
    assert_eq!(WELCOME_HTML, "<p>Your subscription to my blog is now confirmed. Welcome!</p>");
    assert_eq!(WELCOME_TEXT, "Your subscription to my blog is now confirmed. Welcome!");
    assert_eq!(CONFIRMED_FLASH, "Your subscription is confirmed!");
    let query = Parameters { subscription_token: "abc".to_string() };
    assert_eq!(query.subscription_token, "abc");
}

#[test]
fn unsubscribe_failures_are_server_errors() {
    assert_eq!(UnsubscribeError::DatabaseError(StoreError::RowLocked).status_code(), 500);
    assert_eq!(UnsubscribeError::UnexpectedError(chain("x", &[])).status_code(), 500);
    assert_eq!(UNSUBSCRIBED_FLASH, "Successfully unsubscribed!");
}

#[test]
fn subscription_tokens_are_twenty_five_letters_and_digits() {
    for _ in 0..50 {
        let token = generate_subscription_token();
        assert_eq!(token.chars().count(), 25);
        assert!(token.chars().all(|c| c.is_ascii_alphanumeric()));
    }
}

#[test]
fn subscription_tokens_differ() {
    let tokens: std::collections::HashSet<String> =
        (0..20).map(|_| generate_subscription_token()).collect();
    assert_eq!(tokens.len(), 20);
}

#[test]
fn unique_violation_means_duplicate_email() {
    let read = InsertSubscriberError::from_failure(
        Some("23505"),
        StoreError::Unavailable("duplicate key".to_string()),
    );
    assert!(matches!(read, InsertSubscriberError::DuplicateEmail));
    let read = InsertSubscriberError::from_failure(
        Some("23503"),
        StoreError::Unavailable("foreign key".to_string()),
    );
    assert!(matches!(
        read,
        InsertSubscriberError::DatabaseError(StoreError::Unavailable(why)) if why == "foreign key"
    ));
    let read = InsertSubscriberError::from_failure(Some("2350"), StoreError::RowLocked);
    assert!(matches!(read, InsertSubscriberError::DatabaseError(StoreError::RowLocked)));
    let read = InsertSubscriberError::from_failure(None, StoreError::RowLocked);
    assert!(matches!(read, InsertSubscriberError::DatabaseError(StoreError::RowLocked)));
}

#[test]
fn visitor_is_told_what_became_of_the_subscription() {
    assert_eq!(
        Subscription::after_insert(&Ok(7)).flash(),
        "Check your inbox for a confirmation email and follow the link to complete your registration."
    );
    assert_eq!(
        Subscription::after_insert(&Err(InsertSubscriberError::DuplicateEmail)).flash(),
        "Email already registered. A new confirmation email has been sent to your inbox in case you haven't confirmed already."
    );
    assert_eq!(
        Subscription::after_insert(&Err(InsertSubscriberError::DatabaseError(
            StoreError::RowLocked
        )))
        .flash(),
        "Sorry - an internal error occurred while processing your sign-up. Please try again later."
    );
    assert_eq!(Subscription::after_insert(&Ok(7)), Subscription::Registered);
}

#[test]
fn confirmation_email_carries_the_link() {
    let app_base_url = "https://blog.example.com";
    let subscription_token = "abcDEF123";
    let confirmation_link = format!(
        "{}/subscriptions/confirm?subscription_token={}",
        app_base_url, subscription_token
    );
    let html_content = format!(
        "Thanks for signing up to my blog!
         <br /> Click <a href=\"{}\">here</a>
         to confirm your subscription.",
        confirmation_link
    );
    let text_content = format!(
        "Thanks for signing up to my blog!\nVisit {} to confirm your subscription.",
        confirmation_link
    );
    let email = confirmation_email(app_base_url, subscription_token);
    assert_eq!(email.subject, "Please confirm your subscription.");
    assert_eq!(email.html, html_content);
    assert_eq!(email.text, text_content);
}

#[test]
fn confirmation_email_is_enqueued_for_the_subscriber() {
    let mut queue = DeliveryQueue::new();
    queue.set_subscriber(5, "new@example.com");
    let id = enqueue_confirmation_email(&mut queue, 1, 5, "http://b", "tok", 1_000).unwrap();
    queue.commit(1);
    let task = peek_task(&mut queue, 2, 1_000).unwrap();
    assert_eq!(task.id, id);
    assert_eq!(task.subscriber_id, 5);
    assert_eq!(task.email, "new@example.com");
    assert_eq!(task.subject, "Please confirm your subscription.");
    assert_eq!(
        task.email_text,
        "Thanks for signing up to my blog!\nVisit http://b/subscriptions/confirm?subscription_token=tok to confirm your subscription."
    );
    assert_eq!(task.n_retries, 0);
    assert_eq!(task.send_after, 1_000);
}

#[test]
fn post_sends_the_visitor_back_to_the_blog() {
    let answer = post();
    assert_eq!(answer.status, 303);
    assert_eq!(answer.location, "/blog");
}

#[test]
fn flash_is_kept_under_one_key() {
    assert_eq!(FLASH_KEY, "_flash");
}

#[test]
fn store_failures_say_what_happened() {
    assert_eq!(StoreError::Unavailable("pool timed out".to_string()).message(), "pool timed out");
    assert_eq!(StoreError::DuplicateId.message(), "A task with this id exists already");
    assert_eq!(StoreError::RowLocked.message(), "Another transaction holds the task");
    assert_eq!(
        StoreError::OutOfRange.message(),
        "The retry counter or the eligibility instant is out of range"
    );
}

#[test]
fn insert_failures_say_what_happened() {
    assert_eq!(InsertSubscriberError::DuplicateEmail.message(), "Email address already exists");
    assert_eq!(
        InsertSubscriberError::DatabaseError(StoreError::Unavailable("no route".to_string()))
            .message(),
        "Database error: no route"
    );
}

#[test]
fn token_failure_names_its_cause() {
    let failure = StoreTokenError(StoreError::Unavailable("disk full".to_string()));
    let sentence = "A database error was encountered while trying to store a subscription token";
    assert_eq!(failure.message(), sentence);
    assert_eq!(failure.describe(), format!("{}\n\nCaused by:\n\tdisk full\n", sentence));
}
