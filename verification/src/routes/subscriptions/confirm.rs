//! Confirming a subscription: the query the link carries, the failures the
//! route answers with, and the welcome that follows a confirmation.

use crate::routes::blog::post::{post, Redirect, BLOG_PAGE, SEE_OTHER};
use crate::routes::blog::signup::{
    error_chain_fmt, error_chain_text, texts, ErrorChain, COMMIT_CONTEXT, INTERNAL_SERVER_ERROR,
    POOL_CONTEXT,
};
use vstd::pervasive::unreached;
use vstd::prelude::*;
use vstd::string::*;

verus! {

/// Status of a response to a request without valid credentials.
pub const UNAUTHORIZED: u16 = 401;

/// What the route says of every failure to confirm.
pub const CONFIRM_FAILURE: &'static str =
    "An error was encountered while trying to confirm a subscription.";

/// Subject of the email that welcomes a confirmed subscriber.
pub const WELCOME_SUBJECT: &'static str = "Welcome!";

/// HTML body of the email that welcomes a confirmed subscriber.
pub const WELCOME_HTML: &'static str =
    "<p>Your subscription to my blog is now confirmed. Welcome!</p>";

/// Plain body of the email that welcomes a confirmed subscriber.
pub const WELCOME_TEXT: &'static str = "Your subscription to my blog is now confirmed. Welcome!";

/// What the visitor is told after a confirmation.
pub const CONFIRMED_FLASH: &'static str = "Your subscription is confirmed!";

/// The query of a confirmation link.
#[derive(Debug)]
pub struct Parameters {
    pub subscription_token: String,
}

/// Why a confirmation was refused.
#[derive(Debug)]
pub enum SubscriptionConfirmError {
    /// No subscriber holds the token.
    InvalidSubscriptionToken,
    /// Something else went wrong.
    UnexpectedError(ErrorChain),
}

impl SubscriptionConfirmError {
    /// The status the route answers with: unauthorized for a token nobody
    /// holds, a server error for everything else.
    pub fn status_code(&self) -> (status: u16)
        ensures
            status == match self {
                SubscriptionConfirmError::InvalidSubscriptionToken => UNAUTHORIZED,
                SubscriptionConfirmError::UnexpectedError(_) => INTERNAL_SERVER_ERROR,
            },
    {
        match self {
            SubscriptionConfirmError::InvalidSubscriptionToken => UNAUTHORIZED,
            SubscriptionConfirmError::UnexpectedError(_) => INTERNAL_SERVER_ERROR,
        }
    }

    /// What the route says of the failure: the same sentence for all.
    pub fn message(&self) -> (text: String)
        ensures
            text@ == CONFIRM_FAILURE@,
    {
        String::from_str(CONFIRM_FAILURE)
    }

    /// The failure and its causes as text: the sentence of [`Self::message`],
    /// then, for an unexpected failure, what lies behind it. The unexpected
    /// failure's own message gives way to that sentence.
    pub fn describe(&self) -> (text: String)
        ensures
            text@ == match self {
                SubscriptionConfirmError::InvalidSubscriptionToken => error_chain_text(
                    CONFIRM_FAILURE@,
                    Seq::empty(),
                ),
                SubscriptionConfirmError::UnexpectedError(chain) => error_chain_text(
                    CONFIRM_FAILURE@,
                    texts(chain.causes@),
                ),
            },
    {
        match self {
            SubscriptionConfirmError::InvalidSubscriptionToken => {
                let none: Vec<String> = Vec::new();
                assert(texts(none@) =~= Seq::<Seq<char>>::empty());
                error_chain_fmt(CONFIRM_FAILURE, &none)
            },
            SubscriptionConfirmError::UnexpectedError(chain) => error_chain_fmt(
                CONFIRM_FAILURE,
                &chain.causes,
            ),
        }
    }
}


/// What is said when the token could not be looked up.
pub const LOOKUP_CONTEXT: &'static str =
    "Failed to look up subscriber id in subscription_tokens table";

/// What is said when the confirmation could not be recorded.
pub const RECORD_CONTEXT: &'static str = "Failed to register subscriber confirmation in database";

/// What is said when the welcome email could not be enqueued.
pub const WELCOME_CONTEXT: &'static str = "Failed to send email";

/// What is said when the session would not take the message for the visitor.
pub const SESSION_CONTEXT: &'static str = "Failed to set session state";

/// Where a confirmation stands: the request it is waiting on.
pub enum Stage {
    /// Waiting for the subscriber who holds the token.
    Finding,
    /// Waiting for the transaction to open.
    Opening { subscriber_id: u128 },
    /// Waiting for the confirmation to be recorded.
    Recording { subscriber_id: u128 },
    /// Waiting for the welcome email to be enqueued.
    Enqueueing,
    /// Waiting for the commit.
    Committing,
    /// Waiting for the session to take the message for the visitor.
    Flashing,
    /// Over.
    Finished,
}

/// What the driver of a confirmation is asked to do next.
pub enum Request {
    /// Look up the subscriber who holds this token.
    FindSubscriber { subscription_token: String },
    /// Open a transaction.
    Begin,
    /// Record inside the transaction that the subscriber has confirmed.
    Record { subscriber_id: u128 },
    /// Enqueue the welcome email for the subscriber inside the transaction.
    EnqueueWelcome {
        subscriber_id: u128,
        subject: &'static str,
        html: &'static str,
        text: &'static str,
    },
    /// Commit the transaction.
    Commit,
    /// Leave this message for the visitor in the session.
    Flash { message: &'static str },
    /// Answer the request.
    Respond(Result<Redirect, SubscriptionConfirmError>),
}

/// What the driver of a confirmation reports back.
pub enum Reply {
    /// What was asked is done.
    Done,
    /// The look-up found this subscriber, or none.
    Found(Option<u128>),
    /// What was asked failed.
    Failed(ErrorChain),
}

impl Stage {
    /// Whether `reply` answers the request that the stage is waiting on.
    pub open spec fn awaits(self, reply: Reply) -> bool {
        match (self, reply) {
            (Stage::Finished, _) => false,
            (_, Reply::Failed(_)) => true,
            (Stage::Finding, Reply::Found(_)) => true,
            (Stage::Finding, _) => false,
            (_, Reply::Done) => true,
            _ => false,
        }
    }

    /// Whether `reply` answers the request that the stage is waiting on.
    pub fn expects(&self, reply: &Reply) -> (answered: bool)
        ensures
            answered == self.awaits(*reply),
    {
        match (self, reply) {
            (Stage::Finished, _) => false,
            (_, Reply::Failed(_)) => true,
            (Stage::Finding, Reply::Found(_)) => true,
            (Stage::Finding, _) => false,
            (_, Reply::Done) => true,
            _ => false,
        }
    }

    /// What is said when the request that the stage is waiting on fails.
    pub open spec fn failure_context(self) -> Seq<char> {
        match self {
            Stage::Finding => LOOKUP_CONTEXT@,
            Stage::Opening { .. } => POOL_CONTEXT@,
            Stage::Recording { .. } => RECORD_CONTEXT@,
            Stage::Enqueueing => WELCOME_CONTEXT@,
            Stage::Committing => COMMIT_CONTEXT@,
            _ => SESSION_CONTEXT@,
        }
    }
}

/// The first decision on a confirmation: look up who holds the token.
pub fn begin_confirmation(parameters: Parameters) -> (next: (Stage, Request))
    ensures
        next.0 is Finding,
        next.1 == (Request::FindSubscriber { subscription_token: parameters.subscription_token }),
{
    (Stage::Finding, Request::FindSubscriber { subscription_token: parameters.subscription_token })
}

/// The next decision on a confirmation in `stage`, given that `reply` has
/// just come in.
///
/// A token nobody holds ends the confirmation as unauthorized. For the
/// subscriber who holds it a transaction is opened, the confirmation is
/// recorded and the welcome email enqueued in it, and it is committed; then
/// the visitor is left a message and sent back to the blog page. A request
/// that fails on the way ends the confirmation with that failure, under what
/// is said of a failure at that point.
pub fn advance(stage: Stage, reply: Reply) -> (next: (Stage, Request))
    requires
        stage.awaits(reply),
    ensures
        reply matches Reply::Failed(cause) ==> next.0 is Finished && (next.1 matches Request::Respond(
            Err(SubscriptionConfirmError::UnexpectedError(chain)),
        ) && chain.message@ == stage.failure_context() && texts(chain.causes@) == seq![
            cause.message@,
        ] + texts(cause.causes@)),
        reply matches Reply::Found(None) ==> next.0 is Finished && next.1 == Request::Respond(
            Err(SubscriptionConfirmError::InvalidSubscriptionToken),
        ),
        reply matches Reply::Found(Some(subscriber_id)) ==> next.0 == (Stage::Opening {
            subscriber_id,
        }) && next.1 is Begin,
        reply is Done ==> match stage {
            Stage::Opening { subscriber_id } => next.0 == (Stage::Recording { subscriber_id })
                && next.1 == (Request::Record { subscriber_id }),
            Stage::Recording { subscriber_id } => next.0 is Enqueueing && (
            next.1 matches Request::EnqueueWelcome { subscriber_id: asked, subject, html, text }
                && asked == subscriber_id && subject@ == WELCOME_SUBJECT@ && html@ == WELCOME_HTML@
                && text@ == WELCOME_TEXT@),
            Stage::Enqueueing => next.0 is Committing && next.1 is Commit,
            Stage::Committing => next.0 is Flashing && (next.1 matches Request::Flash { message }
                && message@ == CONFIRMED_FLASH@),
            Stage::Flashing => next.0 is Finished && (next.1 matches Request::Respond(Ok(answer))
                && answer.status == SEE_OTHER && answer.location@ == BLOG_PAGE@),
            _ => true,
        },
{
    match reply {
        Reply::Failed(cause) => {
            let chain = match stage {
                Stage::Finding => cause.context(LOOKUP_CONTEXT),
                Stage::Opening { .. } => cause.context(POOL_CONTEXT),
                Stage::Recording { .. } => cause.context(RECORD_CONTEXT),
                Stage::Enqueueing => cause.context(WELCOME_CONTEXT),
                Stage::Committing => cause.context(COMMIT_CONTEXT),
                _ => cause.context(SESSION_CONTEXT),
            };
            (
                Stage::Finished,
                Request::Respond(Err(SubscriptionConfirmError::UnexpectedError(chain))),
            )
        },
        Reply::Found(None) => (
            Stage::Finished,
            Request::Respond(Err(SubscriptionConfirmError::InvalidSubscriptionToken)),
        ),
        Reply::Found(Some(subscriber_id)) => (Stage::Opening { subscriber_id }, Request::Begin),
        Reply::Done => match stage {
            Stage::Opening { subscriber_id } => (
                Stage::Recording { subscriber_id },
                Request::Record { subscriber_id },
            ),
            Stage::Recording { subscriber_id } => (
                Stage::Enqueueing,
                Request::EnqueueWelcome {
                    subscriber_id,
                    subject: WELCOME_SUBJECT,
                    html: WELCOME_HTML,
                    text: WELCOME_TEXT,
                },
            ),
            Stage::Enqueueing => (Stage::Committing, Request::Commit),
            Stage::Committing => (Stage::Flashing, Request::Flash { message: CONFIRMED_FLASH }),
            Stage::Flashing => (Stage::Finished, Request::Respond(Ok(post()))),
            _ => unreached(),
        },
    }
}

} // verus!
