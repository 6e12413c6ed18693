//! Unsubscribing: the query the link carries, the failures the route answers
//! with, and what the visitor is told.

use crate::email_delivery_queue::StoreError;
use crate::routes::blog::post::{post, Redirect, BLOG_PAGE, SEE_OTHER};
use crate::routes::blog::signup::{texts, ErrorChain, INTERNAL_SERVER_ERROR};
use vstd::pervasive::unreached;
use vstd::prelude::*;

verus! {

/// What the visitor is told after unsubscribing.
pub const UNSUBSCRIBED_FLASH: &'static str = "Successfully unsubscribed!";

/// The query of an unsubscribe link.
#[derive(Debug)]
pub struct Parameters {
    pub id: u128,
}

/// Why a subscriber could not be removed.
#[derive(Debug)]
pub enum UnsubscribeError {
    /// The database failed.
    DatabaseError(StoreError),
    /// Something else went wrong.
    UnexpectedError(ErrorChain),
}

impl UnsubscribeError {
    /// The status the route answers with: a server error, whatever failed.
    pub fn status_code(&self) -> (status: u16)
        ensures
            status == INTERNAL_SERVER_ERROR,
    {
        match self {
            UnsubscribeError::DatabaseError(_) => INTERNAL_SERVER_ERROR,
            UnsubscribeError::UnexpectedError(_) => INTERNAL_SERVER_ERROR,
        }
    }
}


/// What is said when the session would not take the message for the visitor.
pub const SESSION_CONTEXT: &'static str = "Error setting session state";

/// Where an unsubscription stands: the request it is waiting on.
pub enum Stage {
    /// Waiting for the subscriber to be removed.
    Removing,
    /// Waiting for the session to take the message for the visitor.
    Flashing,
    /// Over.
    Finished,
}

/// What the driver of an unsubscription is asked to do next.
pub enum Request {
    /// Remove the subscriber and their tokens.
    Remove { id: u128 },
    /// Leave this message for the visitor in the session.
    Flash { message: &'static str },
    /// Answer the request.
    Respond(Result<Redirect, UnsubscribeError>),
}

/// What the driver of an unsubscription reports back.
pub enum Reply {
    /// What was asked is done.
    Done,
    /// The database failed at the removal.
    StoreFailed(StoreError),
    /// The session failed.
    Failed(ErrorChain),
}

impl Stage {
    /// Whether `reply` answers the request that the stage is waiting on.
    pub open spec fn awaits(self, reply: Reply) -> bool {
        match (self, reply) {
            (Stage::Removing, Reply::Done) => true,
            (Stage::Removing, Reply::StoreFailed(_)) => true,
            (Stage::Flashing, Reply::Done) => true,
            (Stage::Flashing, Reply::Failed(_)) => true,
            _ => false,
        }
    }

    /// Whether `reply` answers the request that the stage is waiting on.
    pub fn expects(&self, reply: &Reply) -> (answered: bool)
        ensures
            answered == self.awaits(*reply),
    {
        match (self, reply) {
            (Stage::Removing, Reply::Done) => true,
            (Stage::Removing, Reply::StoreFailed(_)) => true,
            (Stage::Flashing, Reply::Done) => true,
            (Stage::Flashing, Reply::Failed(_)) => true,
            _ => false,
        }
    }
}

/// The first decision on an unsubscription: remove the subscriber.
pub fn begin_unsubscription(parameters: Parameters) -> (next: (Stage, Request))
    ensures
        next.0 is Removing,
        next.1 == (Request::Remove { id: parameters.id }),
{
    (Stage::Removing, Request::Remove { id: parameters.id })
}

/// The next decision on an unsubscription in `stage`, given that `reply` has
/// just come in: once the subscriber is removed the visitor is left a message
/// and sent back to the blog page; a failure of the database or of the
/// session ends the unsubscription with that failure.
pub fn advance(stage: Stage, reply: Reply) -> (next: (Stage, Request))
    requires
        stage.awaits(reply),
    ensures
        match reply {
            Reply::StoreFailed(failure) => next.0 is Finished && next.1 == Request::Respond(
                Err(UnsubscribeError::DatabaseError(failure)),
            ),
            Reply::Failed(cause) => next.0 is Finished && (next.1 matches Request::Respond(
                Err(UnsubscribeError::UnexpectedError(chain)),
            ) && chain.message@ == SESSION_CONTEXT@ && texts(chain.causes@) == seq![
                cause.message@,
            ] + texts(cause.causes@)),
            Reply::Done => if stage is Removing {
                next.0 is Flashing && (next.1 matches Request::Flash { message } && message@
                    == UNSUBSCRIBED_FLASH@)
            } else {
                next.0 is Finished && (next.1 matches Request::Respond(Ok(answer)) && answer.status
                    == SEE_OTHER && answer.location@ == BLOG_PAGE@)
            },
        },
{
    match reply {
        Reply::StoreFailed(failure) => (
            Stage::Finished,
            Request::Respond(Err(UnsubscribeError::DatabaseError(failure))),
        ),
        Reply::Failed(cause) => (
            Stage::Finished,
            Request::Respond(
                Err(UnsubscribeError::UnexpectedError(cause.context(SESSION_CONTEXT))),
            ),
        ),
        Reply::Done => match stage {
            Stage::Removing => (Stage::Flashing, Request::Flash { message: UNSUBSCRIBED_FLASH }),
            Stage::Flashing => (Stage::Finished, Request::Respond(Ok(post()))),
            Stage::Finished => unreached(),
        },
    }
}

} // verus!
