//! Subscribing: the form, the token a new subscriber confirms with, the email
//! that carries it, and what the visitor is told.

use crate::domain::{address_parses, InvalidEmailError, SubscriberEmail};
use crate::email_client::{confirmation_link_text, CONFIRM_PATH};
use crate::email_delivery_queue::{fresh_row, push_task, DeliveryQueue, StoreError};
use crate::routes::blog::post::{post, Redirect, BLOG_PAGE, SEE_OTHER};
use crate::routes::blog::signup::{
    error_chain_fmt, error_chain_text, texts, ErrorChain, BAD_REQUEST, COMMIT_CONTEXT,
    INTERNAL_SERVER_ERROR, POOL_CONTEXT, TOKEN_CONTEXT,
};
use vstd::pervasive::unreached;
use vstd::prelude::*;
use vstd::string::*;

verus! {

/// The number of characters in a subscription token.
pub const TOKEN_LENGTH: usize = 25;

/// The code with which the database refuses a second row for one email address.
pub const UNIQUE_VIOLATION: &'static str = "23505";

/// What is said of an address that is registered already.
pub const DUPLICATE_EMAIL: &'static str = "Email address already exists";

/// What precedes the database's own words when it fails.
pub const DATABASE_ERROR_PREFIX: &'static str = "Database error: ";

/// Subject of the email that asks a new subscriber to confirm.
pub const CONFIRMATION_SUBJECT: &'static str = "Please confirm your subscription.";

/// What stands before the confirmation link in the HTML body.
pub const CONFIRMATION_HTML_HEAD: &'static str =
    "Thanks for signing up to my blog!\n         <br /> Click <a href=\"";

/// What stands after the confirmation link in the HTML body.
pub const CONFIRMATION_HTML_TAIL: &'static str =
    "\">here</a>\n         to confirm your subscription.";

/// What stands before the confirmation link in the plain body.
pub const CONFIRMATION_TEXT_HEAD: &'static str = "Thanks for signing up to my blog!\nVisit ";

/// What stands after the confirmation link in the plain body.
pub const CONFIRMATION_TEXT_TAIL: &'static str = " to confirm your subscription.";

/// What a new subscriber is told.
pub const REGISTERED_FLASH: &'static str =
    "Check your inbox for a confirmation email and follow the link to complete your registration.";

/// What a visitor is told whose address is registered already.
pub const ALREADY_REGISTERED_FLASH: &'static str =
    "Email already registered. A new confirmation email has been sent to your inbox in case you haven't confirmed already.";

/// What a visitor is told when the signup failed on the server's side.
pub const FAILED_FLASH: &'static str =
    "Sorry - an internal error occurred while processing your sign-up. Please try again later.";

/// Why a subscription was refused.
#[derive(Debug)]
pub enum SubscribeError {
    /// The form's address was not valid.
    ValidationError(InvalidEmailError),
    /// Something else went wrong.
    UnexpectedError(ErrorChain),
}

impl SubscribeError {
    /// The status the route answers with: a bad request for an invalid
    /// address, a server error for everything else.
    pub fn status_code(&self) -> (status: u16)
        ensures
            status == match self {
                SubscribeError::ValidationError(_) => BAD_REQUEST,
                SubscribeError::UnexpectedError(_) => INTERNAL_SERVER_ERROR,
            },
    {
        match self {
            SubscribeError::ValidationError(_) => BAD_REQUEST,
            SubscribeError::UnexpectedError(_) => INTERNAL_SERVER_ERROR,
        }
    }

    /// The failure and its causes as text. An invalid address is its own
    /// cause; an unexpected failure is followed by what lies behind it.
    pub fn describe(&self) -> (text: String)
        ensures
            text@ == match self {
                SubscribeError::ValidationError(refused) => error_chain_text(
                    refused.message_text(),
                    seq![refused.message_text()],
                ),
                SubscribeError::UnexpectedError(chain) => error_chain_text(
                    chain.message@,
                    texts(chain.causes@),
                ),
            },
    {
        match self {
            SubscribeError::ValidationError(refused) => {
                let message = refused.message();
                let mut causes: Vec<String> = Vec::new();
                causes.push(refused.message());
                assert(texts(causes@) =~= seq![refused.message_text()]);
                error_chain_fmt(message.as_str(), &causes)
            },
            SubscribeError::UnexpectedError(chain) => error_chain_fmt(
                chain.message.as_str(),
                &chain.causes,
            ),
        }
    }
}

/// The subscription form.
#[derive(Debug)]
pub struct FormData {
    pub email: String,
}

/// Why a subscriber could not be stored.
#[derive(Debug)]
pub enum InsertSubscriberError {
    /// The address is registered already.
    DuplicateEmail,
    /// The database failed otherwise.
    DatabaseError(StoreError),
}

impl InsertSubscriberError {
    /// What the failure says: that the address exists already, or the
    /// database's failure after a few words that introduce it.
    pub open spec fn message_text(&self) -> Seq<char> {
        match self {
            InsertSubscriberError::DuplicateEmail => DUPLICATE_EMAIL@,
            InsertSubscriberError::DatabaseError(failure) => DATABASE_ERROR_PREFIX@
                + failure.message_text(),
        }
    }

    /// What the database said, for a failure of the database.
    pub fn database_words(&self) -> (words: String)
        requires
            self is DatabaseError,
        ensures
            words@ == self->DatabaseError_0.message_text(),
    {
        match self {
            InsertSubscriberError::DatabaseError(failure) => failure.message(),
            InsertSubscriberError::DuplicateEmail => unreached(),
        }
    }

    /// What the failure says.
    pub fn message(&self) -> (text: String)
        ensures
            text@ == self.message_text(),
    {
        match self {
            InsertSubscriberError::DuplicateEmail => String::from_str(DUPLICATE_EMAIL),
            InsertSubscriberError::DatabaseError(failure) => {
                let mut text = String::from_str(DATABASE_ERROR_PREFIX);
                text.append(failure.message().as_str());
                text
            },
        }
    }

    /// The failure to store a subscriber, read from the code the database
    /// gave, if it gave one: the code of a unique violation means that the
    /// address is registered already, and every other failure is handed on as
    /// it is.
    pub fn from_failure(code: Option<&str>, failure: StoreError) -> (read: InsertSubscriberError)
        ensures
            read == if code matches Some(given) && given@ == UNIQUE_VIOLATION@ {
                InsertSubscriberError::DuplicateEmail
            } else {
                InsertSubscriberError::DatabaseError(failure)
            },
    {
        match code {
            Some(given) => {
                if String::from_str(given) == String::from_str(UNIQUE_VIOLATION) {
                    InsertSubscriberError::DuplicateEmail
                } else {
                    InsertSubscriberError::DatabaseError(failure)
                }
            },
            None => InsertSubscriberError::DatabaseError(failure),
        }
    }
}

/// What is said when a subscription token could not be stored.
pub const STORE_TOKEN_FAILURE: &'static str =
    "A database error was encountered while trying to store a subscription token";

/// The failure to store a subscription token, with the database's failure
/// behind it.
#[derive(Debug)]
pub struct StoreTokenError(pub StoreError);

impl StoreTokenError {
    /// What the failure says: the same sentence whatever lies behind it.
    pub fn message(&self) -> (text: String)
        ensures
            text@ == STORE_TOKEN_FAILURE@,
    {
        String::from_str(STORE_TOKEN_FAILURE)
    }

    /// The failure as a chain: the sentence of [`Self::message`], with what
    /// the database said behind it.
    pub fn chain(&self) -> (chain: ErrorChain)
        ensures
            chain.message@ == STORE_TOKEN_FAILURE@,
            texts(chain.causes@) == seq![self.0.message_text()],
    {
        let mut causes: Vec<String> = Vec::new();
        causes.push(self.0.message());
        assert(texts(causes@) =~= seq![self.0.message_text()]);
        ErrorChain { message: String::from_str(STORE_TOKEN_FAILURE), causes }
    }

    /// The failure and its cause as text: the sentence of [`Self::message`],
    /// then what the database said.
    pub fn describe(&self) -> (text: String)
        ensures
            text@ == error_chain_text(STORE_TOKEN_FAILURE@, seq![self.0.message_text()]),
    {
        let mut causes: Vec<String> = Vec::new();
        causes.push(self.0.message());
        assert(texts(causes@) =~= seq![self.0.message_text()]);
        error_chain_fmt(STORE_TOKEN_FAILURE, &causes)
    }
}

/// What became of a subscription request that reached the database.
#[derive(Debug, Clone, Copy, PartialEq, Eq, Structural)]
pub enum Subscription {
    /// A new subscriber was stored and a confirmation email enqueued.
    Registered,
    /// The address was registered already; its confirmation email was
    /// enqueued once more.
    AlreadyRegistered,
    /// The subscriber could not be stored.
    Failed,
}

impl Subscription {
    /// What the visitor is told.
    pub fn flash(&self) -> (message: &'static str)
        ensures
            message@ == match self {
                Subscription::Registered => REGISTERED_FLASH@,
                Subscription::AlreadyRegistered => ALREADY_REGISTERED_FLASH@,
                Subscription::Failed => FAILED_FLASH@,
            },
    {
        match self {
            Subscription::Registered => REGISTERED_FLASH,
            Subscription::AlreadyRegistered => ALREADY_REGISTERED_FLASH,
            Subscription::Failed => FAILED_FLASH,
        }
    }

    /// What became of the request, read from the attempt to store the
    /// subscriber.
    pub fn after_insert(stored: &Result<u128, InsertSubscriberError>) -> (outcome: Subscription)
        ensures
            outcome == match stored {
                Ok(_) => Subscription::Registered,
                Err(InsertSubscriberError::DuplicateEmail) => Subscription::AlreadyRegistered,
                Err(InsertSubscriberError::DatabaseError(_)) => Subscription::Failed,
            },
    {
        match stored {
            Ok(_) => Subscription::Registered,
            Err(InsertSubscriberError::DuplicateEmail) => Subscription::AlreadyRegistered,
            Err(InsertSubscriberError::DatabaseError(_)) => Subscription::Failed,
        }
    }
}

/// Whether `c` is an ASCII letter or digit.
pub open spec fn is_alphanumeric(c: char) -> bool {
    ('a' <= c && c <= 'z') || ('A' <= c && c <= 'Z') || ('0' <= c && c <= '9')
}

/// Whether `token` has the shape of a subscription token: twenty-five ASCII
/// letters and digits.
pub open spec fn is_token(token: Seq<char>) -> bool {
    &&& token.len() == TOKEN_LENGTH
    &&& forall|i: int| 0 <= i < token.len() ==> is_alphanumeric(#[trigger] token[i])
}

/// One random character as text, drawn by the thread's generator from
/// `rand::distributions::Alphanumeric`, which yields ASCII letters and digits
/// only. Which one is a matter of chance.
#[verifier::external_body]
fn random_alphanumeric() -> (drawn: String)
    ensures
        drawn@.len() == 1,
        is_alphanumeric(drawn@[0]),
{
    let mut generator = rand::thread_rng();
    let drawn: u8 = rand::Rng::sample(&mut generator, rand::distributions::Alphanumeric);
    String::from(char::from(drawn))
}

/// A fresh random subscription token: twenty-five ASCII letters and digits.
pub fn generate_subscription_token() -> (token: String)
    ensures
        is_token(token@),
{
    let mut token = String::new();
    let mut drawn: usize = 0;
    while drawn < TOKEN_LENGTH
        invariant
            drawn <= TOKEN_LENGTH,
            token@.len() == drawn,
            forall|i: int| 0 <= i < token@.len() ==> is_alphanumeric(#[trigger] token@[i]),
        decreases TOKEN_LENGTH - drawn,
    {
        let next = random_alphanumeric();
        token.append(next.as_str());
        drawn = drawn + 1;
    }
    token
}

/// The HTML body of the email that asks to confirm at `link`.
pub open spec fn confirmation_html(link: Seq<char>) -> Seq<char> {
    CONFIRMATION_HTML_HEAD@ + link + CONFIRMATION_HTML_TAIL@
}

/// The plain body of the email that asks to confirm at `link`.
pub open spec fn confirmation_text(link: Seq<char>) -> Seq<char> {
    CONFIRMATION_TEXT_HEAD@ + link + CONFIRMATION_TEXT_TAIL@
}

/// An email as the routes enqueue it.
#[derive(Debug)]
pub struct EmailContent {
    pub subject: String,
    pub html: String,
    pub text: String,
}

/// The email that asks a new subscriber to confirm with `subscription_token`
/// on the site at `app_base_url`.
pub fn confirmation_email(app_base_url: &str, subscription_token: &str) -> (email: EmailContent)
    ensures
        email.subject@ == CONFIRMATION_SUBJECT@,
        email.html@ == confirmation_html(
            confirmation_link_text(app_base_url@, subscription_token@),
        ),
        email.text@ == confirmation_text(
            confirmation_link_text(app_base_url@, subscription_token@),
        ),
{
    let mut link = String::from_str(app_base_url);
    link.append(CONFIRM_PATH);
    link.append(subscription_token);
    let mut html = String::from_str(CONFIRMATION_HTML_HEAD);
    html.append(link.as_str());
    html.append(CONFIRMATION_HTML_TAIL);
    let mut text = String::from_str(CONFIRMATION_TEXT_HEAD);
    text.append(link.as_str());
    text.append(CONFIRMATION_TEXT_TAIL);
    EmailContent { subject: String::from_str(CONFIRMATION_SUBJECT), html, text }
}

/// Enqueues, on behalf of `tx`, the email that asks `subscriber_id` to
/// confirm with `subscription_token` on the site at `app_base_url`, and
/// returns the id of the task. The task is stored as [`push_task`] stores
/// every task; on a store without rows it is always stored.
pub fn enqueue_confirmation_email(
    queue: &mut DeliveryQueue,
    tx: u64,
    subscriber_id: u128,
    app_base_url: &str,
    subscription_token: &str,
    now: i64,
) -> (pushed: Result<u128, StoreError>)
    requires
        old(queue).wf(),
    ensures
        final(queue).wf(),
        old(queue)@.rows.len() == 0 ==> pushed is Ok,
        match pushed {
            Ok(id) => !old(queue)@.has_id(id) && final(queue)@ == old(queue)@.after_insert(
                fresh_row(
                    tx,
                    id,
                    subscriber_id,
                    CONFIRMATION_SUBJECT@,
                    confirmation_html(confirmation_link_text(app_base_url@, subscription_token@)),
                    confirmation_text(confirmation_link_text(app_base_url@, subscription_token@)),
                    now,
                ),
            ),
            Err(e) => e is DuplicateId && final(queue)@ == old(queue)@,
        },
{
    let email = confirmation_email(app_base_url, subscription_token);
    push_task(
        queue,
        tx,
        subscriber_id,
        email.subject.as_str(),
        email.html.as_str(),
        email.text.as_str(),
        now,
    )
}


/// What is said when the confirmation email could not be enqueued.
pub const CONFIRMATION_CONTEXT: &'static str = "Error sending confirmation";

/// What is said when a transaction could not be rolled back.
pub const ROLLBACK_CONTEXT: &'static str = "Transaction failed";

/// What is said when the session would not take the message for the visitor.
pub const SESSION_CONTEXT: &'static str = "Error setting session state";

/// What is said, before the address, when a registered address has no token.
pub const TOKEN_NOT_FOUND_PREFIX: &'static str = "Unable to find subscription token for email ";

/// A subscriber on record with the token they confirm with.
#[derive(Debug)]
pub struct TokenRecord {
    pub subscriber_id: u128,
    pub subscription_token: String,
}

/// Where a subscription request stands: the request it is waiting on.
pub enum Stage {
    /// Waiting for the transaction to open.
    Opening { email: SubscriberEmail },
    /// Waiting for the subscriber to be stored.
    Inserting { email: SubscriberEmail },
    /// Waiting for the token to be stored.
    StoringToken { subscriber_id: u128, token: String },
    /// Waiting for the confirmation email to be enqueued, inside the
    /// transaction for a new subscriber, outside any for a known one.
    Enqueueing { in_transaction: bool },
    /// Waiting for the commit.
    Committing,
    /// Waiting for the rollback, with the address to send the confirmation to
    /// once more, if the address was registered already.
    RollingBack { resend_to: Option<SubscriberEmail> },
    /// Waiting for the token of a registered address.
    FindingToken { email: SubscriberEmail },
    /// Waiting for the session to take the message for the visitor.
    Flashing,
    /// Over.
    Finished,
}

/// What the driver of a subscription request is asked to do next.
pub enum Request {
    /// Open a transaction.
    Begin,
    /// Store a subscriber with this address inside the transaction.
    Insert { address: String },
    /// Store the subscriber's token inside the transaction.
    StoreToken { subscriber_id: u128, token: String },
    /// Enqueue this email for the subscriber, inside the transaction or not.
    Enqueue { subscriber_id: u128, content: EmailContent, in_transaction: bool },
    /// Commit the transaction.
    Commit,
    /// Roll the transaction back, after reporting what is given.
    Rollback { report: Option<String> },
    /// Look up the subscriber and token on record for this address.
    FindToken { address: String },
    /// Leave this message for the visitor in the session.
    Flash { message: &'static str },
    /// Answer the request.
    Respond(Result<Redirect, SubscribeError>),
}

/// What the driver of a subscription request reports back.
pub enum Reply {
    /// What was asked is done.
    Done,
    /// The attempt to store the subscriber ended like this.
    Inserted(Result<u128, InsertSubscriberError>),
    /// The look-up found this record, or none.
    Found(Option<TokenRecord>),
    /// What was asked failed.
    Failed(ErrorChain),
}

impl Stage {
    /// Whether `reply` answers the request that the stage is waiting on.
    pub open spec fn awaits(self, reply: Reply) -> bool {
        match (self, reply) {
            (Stage::Finished, _) => false,
            (Stage::Inserting { .. }, Reply::Inserted(_)) => true,
            (Stage::Inserting { .. }, _) => false,
            (Stage::FindingToken { .. }, Reply::Found(_)) => true,
            (Stage::FindingToken { .. }, Reply::Failed(_)) => true,
            (Stage::FindingToken { .. }, _) => false,
            (_, Reply::Done) => true,
            (_, Reply::Failed(_)) => true,
            _ => false,
        }
    }

    /// Whether `reply` answers the request that the stage is waiting on.
    pub fn expects(&self, reply: &Reply) -> (answered: bool)
        ensures
            answered == self.awaits(*reply),
    {
        match (self, reply) {
            (Stage::Finished, _) => false,
            (Stage::Inserting { .. }, Reply::Inserted(_)) => true,
            (Stage::Inserting { .. }, _) => false,
            (Stage::FindingToken { .. }, Reply::Found(_)) => true,
            (Stage::FindingToken { .. }, Reply::Failed(_)) => true,
            (Stage::FindingToken { .. }, _) => false,
            (_, Reply::Done) => true,
            (_, Reply::Failed(_)) => true,
            _ => false,
        }
    }

    /// What is said when the request that the stage is waiting on fails. The
    /// look-up of a token speaks for itself.
    pub open spec fn failure_context(self) -> Option<Seq<char>> {
        match self {
            Stage::Opening { .. } => Some(POOL_CONTEXT@),
            Stage::StoringToken { .. } => Some(TOKEN_CONTEXT@),
            Stage::Enqueueing { .. } => Some(CONFIRMATION_CONTEXT@),
            Stage::Committing => Some(COMMIT_CONTEXT@),
            Stage::RollingBack { .. } => Some(ROLLBACK_CONTEXT@),
            Stage::Flashing => Some(SESSION_CONTEXT@),
            _ => None,
        }
    }
}

/// The failure that answers a request which failed in `stage` because of
/// `cause`: the cause, under what is said of a failure in that stage.
pub open spec fn failed_in(stage: Stage, cause: ErrorChain, answer: SubscribeError) -> bool {
    answer matches SubscribeError::UnexpectedError(chain) && match stage.failure_context() {
        Some(context) => chain.message@ == context && texts(chain.causes@) == seq![
            cause.message@,
        ] + texts(cause.causes@),
        None => chain == cause,
    }
}

/// The first decision on a subscription, given how the form's address read:
/// an address that did not read is refused at once, for any other a
/// transaction is opened.
pub fn on_form(parsed: Result<SubscriberEmail, InvalidEmailError>) -> (next: (Stage, Request))
    ensures
        match parsed {
            Ok(email) => next.0 == (Stage::Opening { email }) && next.1 is Begin,
            Err(refused) => next.0 is Finished && next.1 == Request::Respond(
                Err(SubscribeError::ValidationError(refused)),
            ),
        },
{
    match parsed {
        Ok(email) => (Stage::Opening { email }, Request::Begin),
        Err(refused) => (
            Stage::Finished,
            Request::Respond(Err(SubscribeError::ValidationError(refused))),
        ),
    }
}

/// The first decision on a subscription form: a form whose address does not
/// read as one is refused at once, for any other a transaction is opened.
pub fn begin_subscription(form: FormData) -> (next: (Stage, Request))
    ensures
        address_parses(form.email@) ==> (next.0 matches Stage::Opening { email } && email@
            == form.email@) && next.1 is Begin,
        !address_parses(form.email@) ==> next.0 is Finished && (next.1 matches Request::Respond(
            Err(SubscribeError::ValidationError(refused)),
        ) && refused.email@ == form.email@),
{
    on_form(SubscriberEmail::parse(form.email))
}

/// The decision that follows a stored subscriber, given the token drawn for
/// them: the token is stored next.
pub fn with_token(subscriber_id: u128, token: String) -> (next: (Stage, Request))
    ensures
        next.0 == (Stage::StoringToken { subscriber_id, token }),
        next.1 matches Request::StoreToken { subscriber_id: id, token: stored } && id
            == subscriber_id && stored@ == token@,
{
    let stored = token.clone();
    (
        Stage::StoringToken { subscriber_id, token },
        Request::StoreToken { subscriber_id, token: stored },
    )
}

/// The next decision on a subscription in `stage`, on the site at
/// `app_base_url`, given that `reply` has just come in.
///
/// A new subscriber gets a fresh token, then the confirmation email is
/// enqueued inside the transaction, which is then committed. For an address
/// that is registered already the transaction is rolled back and the email
/// with the token on record is enqueued once more. If the subscriber could
/// not be stored for another reason the transaction is rolled back and
/// nothing is enqueued. All three end with a message for the visitor and the
/// way back to the blog page. A request that fails on the way ends the
/// subscription with that failure, under what is said of a failure at that
/// point.
pub fn advance(stage: Stage, reply: Reply, app_base_url: &str) -> (next: (Stage, Request))
    requires
        stage.awaits(reply),
    ensures
        reply matches Reply::Failed(cause) ==> next.0 is Finished && (next.1 matches Request::Respond(
            Err(answer),
        ) && failed_in(stage, cause, answer)),
        reply matches Reply::Inserted(Ok(id)) ==> (next.0 matches Stage::StoringToken {
            subscriber_id,
            token,
        } && subscriber_id == id && is_token(token@) && (next.1 matches Request::StoreToken {
            subscriber_id: asked,
            token: stored,
        } && asked == id && stored@ == token@)),
        reply matches Reply::Inserted(Err(InsertSubscriberError::DuplicateEmail)) ==> next.0 == (
        Stage::RollingBack { resend_to: Some(stage->Inserting_email) }) && next.1 == (
        Request::Rollback { report: None }),
        reply matches Reply::Inserted(Err(InsertSubscriberError::DatabaseError(failure)))
            ==> next.0 == (Stage::RollingBack { resend_to: None }) && (next.1 matches Request::Rollback {
            report: Some(words),
        } && words@ == failure.message_text()),
        reply matches Reply::Found(Some(record)) ==> next.0 == (Stage::Enqueueing {
            in_transaction: false,
        }) && (next.1 matches Request::Enqueue { subscriber_id: asked, content, in_transaction }
            && asked == record.subscriber_id && !in_transaction && is_confirmation(
            content,
            app_base_url@,
            record.subscription_token@,
        )),
        reply matches Reply::Found(None) ==> next.0 is Finished && (next.1 matches Request::Respond(
            Err(SubscribeError::UnexpectedError(chain)),
        ) && chain.message@ == TOKEN_NOT_FOUND_PREFIX@ + stage->FindingToken_email@
            && chain.causes@.len() == 0),
        reply is Done ==> match stage {
            Stage::Opening { email } => next.0 == (Stage::Inserting { email }) && (
            next.1 matches Request::Insert { address } && address@ == email@),
            Stage::StoringToken { subscriber_id, token } => next.0 == (Stage::Enqueueing {
                in_transaction: true,
            }) && (next.1 matches Request::Enqueue { subscriber_id: asked, content, in_transaction }
                && asked == subscriber_id && in_transaction && is_confirmation(
                content,
                app_base_url@,
                token@,
            )),
            Stage::Enqueueing { in_transaction: true } => next.0 is Committing && next.1 is Commit,
            Stage::Enqueueing { in_transaction: false } => next.0 is Flashing && (
            next.1 matches Request::Flash { message } && message@ == ALREADY_REGISTERED_FLASH@),
            Stage::Committing => next.0 is Flashing && (next.1 matches Request::Flash { message }
                && message@ == REGISTERED_FLASH@),
            Stage::RollingBack { resend_to: Some(email) } => next.0 == (Stage::FindingToken {
                email,
            }) && (next.1 matches Request::FindToken { address } && address@ == email@),
            Stage::RollingBack { resend_to: None } => next.0 is Flashing && (
            next.1 matches Request::Flash { message } && message@ == FAILED_FLASH@),
            Stage::Flashing => next.0 is Finished && (next.1 matches Request::Respond(Ok(answer))
                && answer.status == SEE_OTHER && answer.location@ == BLOG_PAGE@),
            _ => true,
        },
{
    match reply {
        Reply::Failed(cause) => {
            let chain = match stage {
                Stage::Opening { .. } => cause.context(POOL_CONTEXT),
                Stage::StoringToken { .. } => cause.context(TOKEN_CONTEXT),
                Stage::Enqueueing { .. } => cause.context(CONFIRMATION_CONTEXT),
                Stage::Committing => cause.context(COMMIT_CONTEXT),
                Stage::RollingBack { .. } => cause.context(ROLLBACK_CONTEXT),
                Stage::Flashing => cause.context(SESSION_CONTEXT),
                _ => cause,
            };
            (Stage::Finished, Request::Respond(Err(SubscribeError::UnexpectedError(chain))))
        },
        Reply::Inserted(Ok(id)) => with_token(id, generate_subscription_token()),
        Reply::Inserted(Err(InsertSubscriberError::DuplicateEmail)) => match stage {
            Stage::Inserting { email } => (
                Stage::RollingBack { resend_to: Some(email) },
                Request::Rollback { report: None },
            ),
            _ => unreached(),
        },
        Reply::Inserted(Err(failure)) => (
            Stage::RollingBack { resend_to: None },
            Request::Rollback { report: Some(failure.database_words()) },
        ),
        Reply::Found(Some(record)) => (
            Stage::Enqueueing { in_transaction: false },
            Request::Enqueue {
                subscriber_id: record.subscriber_id,
                content: confirmation_email(app_base_url, record.subscription_token.as_str()),
                in_transaction: false,
            },
        ),
        Reply::Found(None) => match stage {
            Stage::FindingToken { email } => {
                let mut message = String::from_str(TOKEN_NOT_FOUND_PREFIX);
                message.append(email.as_str());
                (
                    Stage::Finished,
                    Request::Respond(
                        Err(
                            SubscribeError::UnexpectedError(
                                ErrorChain { message, causes: Vec::new() },
                            ),
                        ),
                    ),
                )
            },
            _ => unreached(),
        },
        Reply::Done => match stage {
            Stage::Opening { email } => {
                let text = String::from_str(email.as_str());
                (Stage::Inserting { email }, Request::Insert { address: text })
            },
            Stage::StoringToken { subscriber_id, token } => (
                Stage::Enqueueing { in_transaction: true },
                Request::Enqueue {
                    subscriber_id,
                    content: confirmation_email(app_base_url, token.as_str()),
                    in_transaction: true,
                },
            ),
            Stage::Enqueueing { in_transaction } => if in_transaction {
                (Stage::Committing, Request::Commit)
            } else {
                (Stage::Flashing, Request::Flash { message: ALREADY_REGISTERED_FLASH })
            },
            Stage::Committing => (Stage::Flashing, Request::Flash { message: REGISTERED_FLASH }),
            Stage::RollingBack { resend_to } => match resend_to {
                Some(email) => {
                    let text = String::from_str(email.as_str());
                    (Stage::FindingToken { email }, Request::FindToken { address: text })
                },
                None => (Stage::Flashing, Request::Flash { message: FAILED_FLASH }),
            },
            Stage::Flashing => (Stage::Finished, Request::Respond(Ok(post()))),
            _ => unreached(),
        },
    }
}

/// Whether `email` is the email that asks to confirm with `token` on the
/// site at `base`.
pub open spec fn is_confirmation(email: EmailContent, base: Seq<char>, token: Seq<char>) -> bool {
    &&& email.subject@ == CONFIRMATION_SUBJECT@
    &&& email.html@ == confirmation_html(confirmation_link_text(base, token))
    &&& email.text@ == confirmation_text(confirmation_link_text(base, token))
}

} // verus!
