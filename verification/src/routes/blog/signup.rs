//! Signing up from the blog page: the form, its validation and the failures
//! the route answers with.

use crate::domain::{address_parses, InvalidEmailError, SubscriberEmail, INVALID_EMAIL_SUFFIX};
use crate::routes::blog::post::{post, Redirect, BLOG_PAGE, SEE_OTHER};
use crate::routes::subscriptions::subscribe::{generate_subscription_token, is_token};
use vstd::pervasive::unreached;
use vstd::prelude::*;
use vstd::string::*;

verus! {

/// Status of a response to a request that cannot be served as sent.
pub const BAD_REQUEST: u16 = 400;

/// Status of a response to a failure on the server's side.
pub const INTERNAL_SERVER_ERROR: u16 = 500;

/// A failure as it is reported: its own message, then the messages of what
/// caused it, outermost first.
#[derive(Debug)]
pub struct ErrorChain {
    pub message: String,
    pub causes: Vec<String>,
}

/// What is said when no connection to the database could be had.
pub const POOL_CONTEXT: &'static str = "Failed to acquire a Postgres connection from the pool";

/// What is said when a subscriber could not be stored.
pub const INSERT_CONTEXT: &'static str = "Failed to insert a new subscriber in the database";

/// What is said when a subscription token could not be stored.
pub const TOKEN_CONTEXT: &'static str = "Failed to insert subscription token in the database";

/// What is said when a transaction could not be committed.
pub const COMMIT_CONTEXT: &'static str = "Failed to commit SQL transaction to the database";

/// The messages of `causes` as plain text.
pub open spec fn texts(causes: Seq<String>) -> Seq<Seq<char>> {
    causes.map_values(|cause: String| cause@)
}

impl ErrorChain {
    /// The chain with `context` put in front: `context` is the message, and
    /// what was the message is the first cause.
    pub fn context(self, context: &str) -> (wrapped: ErrorChain)
        ensures
            wrapped.message@ == context@,
            texts(wrapped.causes@) == seq![self.message@] + texts(self.causes@),
    {
        let mut causes: Vec<String> = Vec::new();
        causes.push(self.message);
        assert(texts(causes@) =~= seq![self.message@] + texts(self.causes@).take(0));
        let ghost behind = texts(self.causes@);
        for cause in it: self.causes
            invariant
                behind == texts(it.seq()),
                texts(causes@) == seq![self.message@] + behind.take(it.index() as int),
        {
            let ghost before = causes@;
            let ghost k = it.index() as int;
            causes.push(cause);
            proof {
                assert(texts(causes@) =~= texts(before).push(cause@));
                assert(behind.take(k + 1) =~= behind.take(k).push(behind[k]));
            }
        }
        assert(behind.take(behind.len() as int) =~= behind);
        ErrorChain { message: String::from_str(context), causes }
    }
}

/// The lines that name the causes of a failure, in order: each cause on a
/// line of its own, indented under a line that says `Caused by:`.
pub open spec fn causes_text(causes: Seq<Seq<char>>) -> Seq<char>
    decreases causes.len(),
{
    if causes.len() == 0 {
        Seq::empty()
    } else {
        causes_text(causes.drop_last()) + "Caused by:\n\t"@ + causes.last() + "\n"@
    }
}

/// A failure with its chain of causes as text: the message, an empty line,
/// then the causes.
pub open spec fn error_chain_text(message: Seq<char>, causes: Seq<Seq<char>>) -> Seq<char> {
    message + "\n\n"@ + causes_text(causes)
}

/// Writes out a failure and everything that caused it: `message`, an empty
/// line, then for each of `causes`, in order, a line `Caused by:` and the
/// cause indented on the next.
pub fn error_chain_fmt(message: &str, causes: &Vec<String>) -> (text: String)
    ensures
        text@ == error_chain_text(message@, texts(causes@)),
{
    let mut text = String::from_str(message);
    text.append("\n\n");
    let mut i: usize = 0;
    assert(texts(causes@).take(0) =~= Seq::<Seq<char>>::empty());
    while i < causes.len()
        invariant
            i <= causes.len(),
            text@ == error_chain_text(message@, texts(causes@).take(i as int)),
        decreases causes.len() - i,
    {
        proof {
            let done = texts(causes@).take(i as int);
            let more = texts(causes@).take(i as int + 1);
            assert(more.drop_last() =~= done);
            assert(more.last() == causes@[i as int]@);
        }
        text.append("Caused by:\n\t");
        text.append(causes[i].as_str());
        text.append("\n");
        i = i + 1;
    }
    assert(texts(causes@).take(causes.len() as int) =~= texts(causes@));
    text
}

/// Why a signup was refused.
#[derive(Debug)]
pub enum SubscribeError {
    /// The form was not valid; the text says why.
    ValidationError(String),
    /// Something else went wrong.
    UnexpectedError(ErrorChain),
}

impl SubscribeError {
    /// The status the route answers with: a bad request for an invalid form,
    /// a server error for everything else.
    pub fn status_code(&self) -> (status: u16)
        ensures
            status == match self {
                SubscribeError::ValidationError(_) => BAD_REQUEST,
                SubscribeError::UnexpectedError(_) => INTERNAL_SERVER_ERROR,
            },
    {
        match self {
            SubscribeError::ValidationError(_) => BAD_REQUEST,
            SubscribeError::UnexpectedError(_) => INTERNAL_SERVER_ERROR,
        }
    }

    /// The failure and its causes as text. A validation failure has no cause
    /// behind it.
    pub fn describe(&self) -> (text: String)
        ensures
            text@ == match self {
                SubscribeError::ValidationError(reason) => error_chain_text(
                    reason@,
                    Seq::empty(),
                ),
                SubscribeError::UnexpectedError(chain) => error_chain_text(
                    chain.message@,
                    texts(chain.causes@),
                ),
            },
    {
        match self {
            SubscribeError::ValidationError(reason) => {
                let none: Vec<String> = Vec::new();
                assert(texts(none@) =~= Seq::<Seq<char>>::empty());
                error_chain_fmt(reason.as_str(), &none)
            },
            SubscribeError::UnexpectedError(chain) => error_chain_fmt(
                chain.message.as_str(),
                &chain.causes,
            ),
        }
    }
}

/// The signup form.
#[derive(Debug)]
pub struct FormData {
    pub email: String,
}

impl FormData {
    /// The subscriber address that the form holds, if its `email` field reads
    /// as one.
    pub fn try_into_email(self) -> (address: Result<SubscriberEmail, InvalidEmailError>)
        ensures
            address is Ok == address_parses(self.email@),
            address matches Ok(email) ==> email@ == self.email@,
            address matches Err(refused) ==> refused.email@ == self.email@,
    {
        SubscriberEmail::parse(self.email)
    }
}


/// Where a signup stands: the request it is waiting on.
pub enum Stage {
    /// Waiting for the transaction to open.
    Opening { email: SubscriberEmail },
    /// Waiting for the subscriber to be stored.
    Inserting,
    /// Waiting for the token to be stored.
    StoringToken,
    /// Waiting for the commit.
    Committing,
    /// Over.
    Finished,
}

/// What the driver of a signup is asked to do next.
pub enum Request {
    /// Open a transaction.
    Begin,
    /// Store a subscriber with this address inside the transaction.
    Insert { address: String },
    /// Store the subscriber's token inside the transaction.
    StoreToken { subscriber_id: u128, token: String },
    /// Commit the transaction.
    Commit,
    /// Answer the request.
    Respond(Result<Redirect, SubscribeError>),
}

/// What the driver of a signup reports back.
pub enum Reply {
    /// What was asked is done.
    Done,
    /// The subscriber is stored under this id.
    Inserted(u128),
    /// What was asked failed.
    Failed(ErrorChain),
}

impl Stage {
    /// Whether `reply` answers the request that the stage is waiting on.
    pub open spec fn awaits(self, reply: Reply) -> bool {
        match (self, reply) {
            (Stage::Finished, _) => false,
            (_, Reply::Failed(_)) => true,
            (Stage::Inserting, Reply::Inserted(_)) => true,
            (Stage::Inserting, _) => false,
            (_, Reply::Done) => true,
            _ => false,
        }
    }

    /// Whether `reply` answers the request that the stage is waiting on.
    pub fn expects(&self, reply: &Reply) -> (answered: bool)
        ensures
            answered == self.awaits(*reply),
    {
        match (self, reply) {
            (Stage::Finished, _) => false,
            (_, Reply::Failed(_)) => true,
            (Stage::Inserting, Reply::Inserted(_)) => true,
            (Stage::Inserting, _) => false,
            (_, Reply::Done) => true,
            _ => false,
        }
    }

    /// What is said when the request that the stage is waiting on fails.
    pub open spec fn failure_context(self) -> Seq<char> {
        match self {
            Stage::Opening { .. } => POOL_CONTEXT@,
            Stage::Inserting => INSERT_CONTEXT@,
            Stage::StoringToken => TOKEN_CONTEXT@,
            _ => COMMIT_CONTEXT@,
        }
    }
}

/// The first decision on a signup, given how the form's address read: an
/// address that did not read is refused at once with what its refusal says,
/// for any other a transaction is opened.
pub fn on_form(parsed: Result<SubscriberEmail, InvalidEmailError>) -> (next: (Stage, Request))
    ensures
        match parsed {
            Ok(email) => next.0 == (Stage::Opening { email }) && next.1 is Begin,
            Err(refused) => next.0 is Finished && (next.1 matches Request::Respond(
                Err(SubscribeError::ValidationError(reason)),
            ) && reason@ == refused.message_text()),
        },
{
    match parsed {
        Ok(email) => (Stage::Opening { email }, Request::Begin),
        Err(refused) => (
            Stage::Finished,
            Request::Respond(Err(SubscribeError::ValidationError(refused.message()))),
        ),
    }
}

/// The first decision on a signup form: a form whose address does not read
/// as one is refused at once, for any other a transaction is opened.
pub fn begin_signup(form: FormData) -> (next: (Stage, Request))
    ensures
        address_parses(form.email@) ==> (next.0 matches Stage::Opening { email } && email@
            == form.email@) && next.1 is Begin,
        !address_parses(form.email@) ==> next.0 is Finished && (next.1 matches Request::Respond(
            Err(SubscribeError::ValidationError(reason)),
        ) && reason@ == form.email@ + INVALID_EMAIL_SUFFIX@),
{
    on_form(form.try_into_email())
}

/// The next decision on a signup in `stage`, given that `reply` has just come
/// in: the subscriber is stored, then a fresh token for them, the transaction
/// is committed and the visitor sent back to the blog page. A request that
/// fails on the way ends the signup with that failure, under what is said of
/// a failure at that point.
pub fn advance(stage: Stage, reply: Reply) -> (next: (Stage, Request))
    requires
        stage.awaits(reply),
    ensures
        match reply {
            Reply::Failed(cause) => next.0 is Finished && (next.1 matches Request::Respond(
                Err(SubscribeError::UnexpectedError(chain)),
            ) && chain.message@ == stage.failure_context() && texts(chain.causes@) == seq![
                cause.message@,
            ] + texts(cause.causes@)),
            Reply::Inserted(id) => next.0 is StoringToken && (next.1 matches Request::StoreToken {
                subscriber_id,
                token,
            } && subscriber_id == id && is_token(token@)),
            Reply::Done => match stage {
                Stage::Opening { email } => next.0 is Inserting && (
                next.1 matches Request::Insert { address } && address@ == email@),
                Stage::StoringToken => next.0 is Committing && next.1 is Commit,
                Stage::Committing => next.0 is Finished && (next.1 matches Request::Respond(
                    Ok(answer),
                ) && answer.status == SEE_OTHER && answer.location@ == BLOG_PAGE@),
                _ => true,
            },
        },
{
    match reply {
        Reply::Failed(cause) => {
            let chain = match stage {
                Stage::Opening { .. } => cause.context(POOL_CONTEXT),
                Stage::Inserting => cause.context(INSERT_CONTEXT),
                Stage::StoringToken => cause.context(TOKEN_CONTEXT),
                _ => cause.context(COMMIT_CONTEXT),
            };
            (Stage::Finished, Request::Respond(Err(SubscribeError::UnexpectedError(chain))))
        },
        Reply::Inserted(id) => (
            Stage::StoringToken,
            Request::StoreToken { subscriber_id: id, token: generate_subscription_token() },
        ),
        Reply::Done => match stage {
            Stage::Opening { email } => (
                Stage::Inserting,
                Request::Insert { address: String::from_str(email.as_str()) },
            ),
            Stage::StoringToken => (Stage::Committing, Request::Commit),
            Stage::Committing => (Stage::Finished, Request::Respond(Ok(post()))),
            _ => unreached(),
        },
    }
}

} // verus!
