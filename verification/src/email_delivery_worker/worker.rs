//! One delivery attempt as a sequence of decisions, and the worker that
//! repeats it.
//!
//! The decisions are kept apart from the work they ask for. [`step`] is told
//! what has just happened and answers with the next thing to do; whoever
//! drives it talks to the database and to the mail transport.
//! [`claim_task`], [`resolve_task`], [`try_execute_task`] and [`worker`]
//! drive it against the library's in-memory model of the store, with the
//! transport's answers and the clock handed in.

use crate::domain::{address_parses, InvalidEmailError, SubscriberEmail};
use crate::email_delivery_queue::{
    deprioritise_task, peek_task, pop_task, DeliveryQueue, EmailDeliveryTask, QueueView,
    StoreError, TaskView,
};
use crate::email_delivery_worker::email_client::{delivery_outcome, EmailClientError};
use crate::guarantees::{
    lemma_claimed_row_is_held, lemma_resolution_releases, lemma_untouched_resolves_to_itself,
};
use vstd::pervasive::unreached;
use vstd::prelude::*;

verus! {

/// Seconds the worker rests when it found nothing to claim.
pub const IDLE_PAUSE_SECS: u64 = 1;

/// Seconds the worker rests after the database or the mail client failed.
pub const FAILURE_PAUSE_SECS: u64 = 10;

/// What is said of an attempt that found nothing to claim.
pub const NO_PENDING_TASK: &'static str = "No tasks ready to execute";

/// How one delivery attempt can end other than in a delivery.
#[derive(Debug)]
pub enum TryTaskError {
    /// The recipient on record is not an email address.
    CorruptedData(InvalidEmailError),
    /// The database failed.
    DatabaseError(StoreError),
    /// The mail client could not send the message.
    EmailClientError(EmailClientError),
    /// Nothing was ready to be claimed.
    NoPendingTask,
}

/// The kinds of end an attempt can come to.
#[derive(Debug, Clone, Copy, PartialEq, Eq, Structural)]
pub enum Outcome {
    Delivered,
    NoPendingTask,
    CorruptedData,
    EmailClientError,
    DatabaseError,
}

/// The kind of end that `done` is.
pub open spec fn outcome_of(done: Result<(), TryTaskError>) -> Outcome {
    match done {
        Ok(_) => Outcome::Delivered,
        Err(TryTaskError::NoPendingTask) => Outcome::NoPendingTask,
        Err(TryTaskError::CorruptedData(_)) => Outcome::CorruptedData,
        Err(TryTaskError::EmailClientError(_)) => Outcome::EmailClientError,
        Err(TryTaskError::DatabaseError(_)) => Outcome::DatabaseError,
    }
}

/// How loudly the end of an attempt is reported.
#[derive(Debug, Clone, Copy, PartialEq, Eq, Structural)]
pub enum Report {
    /// Not at all.
    Silent,
    /// As a trace for whoever debugs the worker.
    Debug,
    /// As an error.
    Error,
}

/// What the worker does between two attempts.
#[derive(Debug, Clone, Copy, PartialEq, Eq, Structural)]
pub struct Pace {
    /// Seconds to rest before the next attempt.
    pub pause_secs: u64,
    /// How the attempt just ended is reported.
    pub report: Report,
}

/// The pace that follows an attempt of the given kind: on after a delivery,
/// on at once but with an error report after corrupted data, a short rest
/// when nothing was pending, a long one after the database or the mail client
/// failed.
pub open spec fn pace_for(outcome: Outcome) -> Pace {
    match outcome {
        Outcome::Delivered => Pace { pause_secs: 0, report: Report::Silent },
        Outcome::CorruptedData => Pace { pause_secs: 0, report: Report::Error },
        Outcome::NoPendingTask => Pace { pause_secs: IDLE_PAUSE_SECS, report: Report::Debug },
        Outcome::EmailClientError => Pace {
            pause_secs: FAILURE_PAUSE_SECS,
            report: Report::Error,
        },
        Outcome::DatabaseError => Pace { pause_secs: FAILURE_PAUSE_SECS, report: Report::Error },
    }
}

/// The kind of end that an attempt came to.
pub fn classify(done: &Result<(), TryTaskError>) -> (outcome: Outcome)
    ensures
        outcome == outcome_of(*done),
{
    match done {
        Ok(_) => Outcome::Delivered,
        Err(TryTaskError::NoPendingTask) => Outcome::NoPendingTask,
        Err(TryTaskError::CorruptedData(_)) => Outcome::CorruptedData,
        Err(TryTaskError::EmailClientError(_)) => Outcome::EmailClientError,
        Err(TryTaskError::DatabaseError(_)) => Outcome::DatabaseError,
    }
}

/// What the worker does after an attempt that ended as `done`. No end of an
/// attempt stops the worker.
pub fn pace_after(done: &Result<(), TryTaskError>) -> (pace: Pace)
    ensures
        pace == pace_for(outcome_of(*done)),
{
    match classify(done) {
        Outcome::Delivered => Pace { pause_secs: 0, report: Report::Silent },
        Outcome::CorruptedData => Pace { pause_secs: 0, report: Report::Error },
        Outcome::NoPendingTask => Pace { pause_secs: IDLE_PAUSE_SECS, report: Report::Debug },
        Outcome::EmailClientError => Pace {
            pause_secs: FAILURE_PAUSE_SECS,
            report: Report::Error,
        },
        Outcome::DatabaseError => Pace { pause_secs: FAILURE_PAUSE_SECS, report: Report::Error },
    }
}

/// Where a delivery attempt stands: the request it is waiting on.
pub enum Attempt {
    /// Waiting for the transaction to open.
    Opening,
    /// Waiting for the claim.
    Claiming,
    /// Waiting for the mail client, with what a deferral would need.
    Sending { id: u128, n_retries: u32 },
    /// Waiting for the deferral, with the failure to report after it.
    Deferring { cause: TryTaskError },
    /// Waiting for the deletion.
    Completing,
    /// Waiting for the commit, with the failure to report after it, if any.
    Committing { failure: Option<TryTaskError> },
    /// Over.
    Finished,
}

/// What the driver of an attempt is asked to do next.
pub enum Action {
    /// Open a transaction.
    Begin,
    /// Claim the oldest eligible task inside the transaction.
    Claim,
    /// Have the mail client send this message.
    Send { recipient: SubscriberEmail, subject: String, email_html: String, email_text: String },
    /// Defer the task inside the transaction.
    Defer { id: u128, n_retries: u32 },
    /// Delete the task inside the transaction.
    Complete { id: u128 },
    /// Commit the transaction.
    Commit,
    /// Stop: the attempt ended as given. A transaction that is still open is
    /// abandoned.
    Finish(Result<(), TryTaskError>),
}

/// What the driver of an attempt reports back.
pub enum Event {
    /// The transaction is open.
    Begun,
    /// The claim returned a task, or none.
    Claimed(Option<EmailDeliveryTask>),
    /// The mail client answered.
    Sent(Result<(), EmailClientError>),
    /// The deferral is staged.
    Deferred,
    /// The deletion is staged.
    Completed,
    /// The transaction is committed.
    Committed,
    /// The database failed at what it was asked.
    StoreFailed(StoreError),
}

impl Attempt {
    /// Whether `event` answers the request that the attempt is waiting on.
    /// The database can fail at every request made of it; the mail client is
    /// not the database.
    pub open spec fn awaits(self, event: Event) -> bool {
        match (self, event) {
            (Attempt::Finished, _) => false,
            (Attempt::Sending { .. }, Event::Sent(_)) => true,
            (Attempt::Sending { .. }, _) => false,
            (_, Event::StoreFailed(_)) => true,
            (Attempt::Opening, Event::Begun) => true,
            (Attempt::Claiming, Event::Claimed(_)) => true,
            (Attempt::Deferring { .. }, Event::Deferred) => true,
            (Attempt::Completing, Event::Completed) => true,
            (Attempt::Committing { .. }, Event::Committed) => true,
            _ => false,
        }
    }

    /// Whether `event` answers the request that the attempt is waiting on.
    pub fn expects(&self, event: &Event) -> (answered: bool)
        ensures
            answered == self.awaits(*event),
    {
        match (self, event) {
            (Attempt::Finished, _) => false,
            (Attempt::Sending { .. }, Event::Sent(_)) => true,
            (Attempt::Sending { .. }, _) => false,
            (_, Event::StoreFailed(_)) => true,
            (Attempt::Opening, Event::Begun) => true,
            (Attempt::Claiming, Event::Claimed(_)) => true,
            (Attempt::Deferring { .. }, Event::Deferred) => true,
            (Attempt::Completing, Event::Completed) => true,
            (Attempt::Committing { .. }, Event::Committed) => true,
            _ => false,
        }
    }
}

/// The first decision of an attempt: open a transaction.
pub fn begin_attempt() -> (next: (Attempt, Action))
    ensures
        next.0 is Opening,
        next.1 is Begin,
{
    (Attempt::Opening, Action::Begin)
}

/// The decision that follows a claim, given how the claimed recipient read as
/// an address. Nothing claimed ends the attempt; a recipient that is no
/// address has the task deferred, to be reported as corrupted data; otherwise
/// the message goes to the mail client.
pub fn on_claimed(
    claimed: Option<EmailDeliveryTask>,
    recipient: Option<Result<SubscriberEmail, InvalidEmailError>>,
) -> (next: (Attempt, Action))
    requires
        claimed is Some == recipient is Some,
    ensures
        claimed is None ==> next.0 is Finished && next.1 matches Action::Finish(
            Err(TryTaskError::NoPendingTask),
        ),
        claimed matches Some(task) ==> match recipient->0 {
            Ok(address) => {
                &&& next.0 == (Attempt::Sending { id: task.id, n_retries: task.n_retries })
                &&& next.1 matches Action::Send { recipient: to, subject, email_html, email_text }
                &&& to == address
                &&& subject == task.subject
                &&& email_html == task.email_html
                &&& email_text == task.email_text
            },
            Err(refused) => {
                &&& next.0 == (Attempt::Deferring { cause: TryTaskError::CorruptedData(refused) })
                &&& next.1 == (Action::Defer { id: task.id, n_retries: task.n_retries })
            },
        },
{
    match claimed {
        None => (Attempt::Finished, Action::Finish(Err(TryTaskError::NoPendingTask))),
        Some(task) => {
            match recipient {
                Some(Ok(address)) => (
                    Attempt::Sending { id: task.id, n_retries: task.n_retries },
                    Action::Send {
                        recipient: address,
                        subject: task.subject,
                        email_html: task.email_html,
                        email_text: task.email_text,
                    },
                ),
                Some(Err(refused)) => (
                    Attempt::Deferring { cause: TryTaskError::CorruptedData(refused) },
                    Action::Defer { id: task.id, n_retries: task.n_retries },
                ),
                None => unreached(),
            }
        },
    }
}

/// The next decision of an attempt in state `state`, given that `event` has
/// just happened.
///
/// A failure of the database ends the attempt at once. A claimed task whose
/// recipient is no address is deferred and the attempt ends as corrupted
/// data; a task the mail client could not send is deferred and the attempt
/// ends with the client's error; a task that was sent is deleted. Deferral
/// and deletion are each followed by the commit, and only then is the end
/// reported.
pub fn step(state: Attempt, event: Event) -> (next: (Attempt, Action))
    requires
        state.awaits(event),
    ensures
        event matches Event::StoreFailed(failure) ==> next.0 is Finished && next.1 == Action::Finish(
            Err(TryTaskError::DatabaseError(failure)),
        ),
        event is Begun ==> next.0 is Claiming && next.1 is Claim,
        event matches Event::Claimed(None) ==> next.0 is Finished && next.1 matches Action::Finish(
            Err(TryTaskError::NoPendingTask),
        ),
        event matches Event::Claimed(Some(task)) ==> if address_parses(task.email@) {
            &&& next.0 == (Attempt::Sending { id: task.id, n_retries: task.n_retries })
            &&& next.1 matches Action::Send { recipient, subject, email_html, email_text }
            &&& recipient@ == task.email@
            &&& subject == task.subject
            &&& email_html == task.email_html
            &&& email_text == task.email_text
        } else {
            &&& next.0 matches Attempt::Deferring { cause: TryTaskError::CorruptedData(refused) }
            &&& refused.email@ == task.email@
            &&& next.1 == (Action::Defer { id: task.id, n_retries: task.n_retries })
        },
        event matches Event::Sent(Ok(_)) ==> next.0 is Completing && next.1 == (Action::Complete {
            id: state->Sending_id,
        }),
        event matches Event::Sent(Err(failure)) ==> next.0 == (Attempt::Deferring {
            cause: TryTaskError::EmailClientError(failure),
        }) && next.1 == (Action::Defer {
            id: state->Sending_id,
            n_retries: state->Sending_n_retries,
        }),
        event is Deferred ==> next.0 == (Attempt::Committing {
            failure: Some(state->Deferring_cause),
        }) && next.1 is Commit,
        event is Completed ==> next.0 == (Attempt::Committing { failure: None }) && next.1 is Commit,
        event is Committed ==> next.0 is Finished && next.1 == Action::Finish(
            match state->Committing_failure {
                Some(cause) => Err(cause),
                None => Ok(()),
            },
        ),
{
    match event {
        Event::StoreFailed(failure) => (
            Attempt::Finished,
            Action::Finish(Err(TryTaskError::DatabaseError(failure))),
        ),
        Event::Begun => (Attempt::Claiming, Action::Claim),
        Event::Claimed(None) => on_claimed(None, None),
        Event::Claimed(Some(task)) => {
            let recipient = SubscriberEmail::parse(task.email.clone());
            on_claimed(Some(task), Some(recipient))
        },
        Event::Sent(Ok(_)) => match state {
            Attempt::Sending { id, n_retries } => (Attempt::Completing, Action::Complete { id }),
            _ => unreached(),
        },
        Event::Sent(Err(failure)) => match state {
            Attempt::Sending { id, n_retries } => (
                Attempt::Deferring { cause: TryTaskError::EmailClientError(failure) },
                Action::Defer { id, n_retries },
            ),
            _ => unreached(),
        },
        Event::Deferred => match state {
            Attempt::Deferring { cause } => (
                Attempt::Committing { failure: Some(cause) },
                Action::Commit,
            ),
            _ => unreached(),
        },
        Event::Completed => (Attempt::Committing { failure: None }, Action::Commit),
        Event::Committed => match state {
            Attempt::Committing { failure } => (
                Attempt::Finished,
                Action::Finish(
                    match failure {
                        Some(cause) => Err(cause),
                        None => Ok(()),
                    },
                ),
            ),
            _ => unreached(),
        },
    }
}


/// Whether an attempt by `tx` at `now` ends in a deferral: it claims a task,
/// and either the recipient on record is no address or the mail client does
/// not get the message out.
pub open spec fn attempt_defers(queue: QueueView, tx: u64, now: i64, sent: bool) -> bool {
    queue.claim_result(tx, now) matches Some(task) && (!address_parses(task.email) || !sent)
}

/// How an attempt by `tx` at `now` on `queue` ends, `sent` telling whether
/// the mail client gets the message out if it is asked to.
pub open spec fn attempt_outcome(queue: QueueView, tx: u64, now: i64, sent: bool) -> Outcome {
    match queue.claim_result(tx, now) {
        None => Outcome::NoPendingTask,
        Some(task) => if attempt_defers(queue, tx, now, sent) {
            if queue.after_claim(tx, now).defer_out_of_range(tx, task.id, task.n_retries, now) {
                Outcome::DatabaseError
            } else if !address_parses(task.email) {
                Outcome::CorruptedData
            } else {
                Outcome::EmailClientError
            }
        } else {
            Outcome::Delivered
        },
    }
}

/// The store after an attempt by `tx` at `now` on `queue`. A task that was
/// sent is deleted and the deletion committed; a task that could not be sent
/// is deferred and the deferral committed; when nothing was claimed, or the
/// deferral failed, the transaction is rolled back.
pub open spec fn attempt_store(queue: QueueView, tx: u64, now: i64, sent: bool) -> QueueView {
    let claimed = queue.after_claim(tx, now);
    match queue.claim_result(tx, now) {
        None => claimed.after_rollback(tx),
        Some(task) => if attempt_defers(queue, tx, now, sent) {
            if claimed.defer_out_of_range(tx, task.id, task.n_retries, now) {
                claimed.after_rollback(tx)
            } else {
                claimed.after_defer(tx, task.id, task.n_retries, now).after_commit(tx)
            }
        } else {
            claimed.after_pop(tx, task.id).after_commit(tx)
        },
    }
}

/// Ends an attempt: abandons whatever `tx` still has open and hands the
/// result on.
fn finish(queue: &mut DeliveryQueue, tx: u64, action: Action) -> (done: Result<(), TryTaskError>)
    requires
        old(queue).wf(),
        action is Finish,
    ensures
        final(queue).wf(),
        final(queue)@ == old(queue)@.after_rollback(tx),
        done == action->Finish_0,
{
    queue.rollback(tx);
    match action {
        Action::Finish(done) => done,
        _ => unreached(),
    }
}

/// Commits what the attempt has staged and ends it.
fn commit_and_finish(queue: &mut DeliveryQueue, tx: u64, state: Attempt) -> (done: Result<
    (),
    TryTaskError,
>)
    requires
        old(queue).wf(),
        state is Committing,
    ensures
        final(queue).wf(),
        final(queue)@ == old(queue)@.after_commit(tx),
        done == match state->Committing_failure {
            Some(cause) => Err::<(), TryTaskError>(cause),
            None => Ok(()),
        },
{
    queue.commit(tx);
    let (state, action) = step(state, Event::Committed);
    proof {
        lemma_resolution_releases(old(queue)@, tx);
        lemma_untouched_resolves_to_itself(queue@, tx);
    }
    finish(queue, tx, action)
}

/// Defers the claimed task, commits, and ends the attempt with the failure
/// that caused the deferral; a deferral that fails ends it with that failure
/// instead, and nothing is committed.
fn defer_and_finish(
    queue: &mut DeliveryQueue,
    tx: u64,
    now: i64,
    state: Attempt,
    id: u128,
    n_retries: u32,
) -> (done: Result<(), TryTaskError>)
    requires
        old(queue).wf(),
        state is Deferring,
    ensures
        final(queue).wf(),
        old(queue)@.conflicts(tx, id) || old(queue)@.defer_out_of_range(tx, id, n_retries, now)
            ==> final(queue)@ == old(queue)@.after_rollback(tx) && (done matches Err(
            TryTaskError::DatabaseError(failure),
        ) && (failure is RowLocked || failure is OutOfRange) && (failure is RowLocked
            == old(queue)@.conflicts(tx, id))),
        !(old(queue)@.conflicts(tx, id) || old(queue)@.defer_out_of_range(
            tx,
            id,
            n_retries,
            now,
        )) ==> final(queue)@ == old(queue)@.after_defer(tx, id, n_retries, now).after_commit(tx)
            && done == Err::<(), TryTaskError>(state->Deferring_cause),
{
    match deprioritise_task(queue, tx, id, n_retries, now) {
        Ok(()) => {
            let (state, action) = step(state, Event::Deferred);
            commit_and_finish(queue, tx, state)
        },
        Err(failure) => {
            let (state, action) = step(state, Event::StoreFailed(failure));
            finish(queue, tx, action)
        },
    }
}

/// Whether `state` and `action` are the decision on what a claim returned:
/// nothing claimed ends the attempt, a recipient that is no address has the
/// claimed task deferred, every other task goes to the mail client as it was
/// claimed.
pub open spec fn decides(claimed: Option<TaskView>, state: Attempt, action: Action) -> bool {
    match claimed {
        None => state is Finished && action matches Action::Finish(
            Err(TryTaskError::NoPendingTask),
        ),
        Some(task) => if address_parses(task.email) {
            &&& state == (Attempt::Sending { id: task.id, n_retries: task.n_retries })
            &&& action matches Action::Send { recipient, subject, email_html, email_text }
            &&& recipient@ == task.email
            &&& subject@ == task.subject
            &&& email_html@ == task.email_html
            &&& email_text@ == task.email_text
        } else {
            &&& state matches Attempt::Deferring { cause: TryTaskError::CorruptedData(refused) }
            &&& refused.email@ == task.email
            &&& action == (Action::Defer { id: task.id, n_retries: task.n_retries })
        },
    }
}

/// Whether an attempt can be resolved from `state` with `action`: the three
/// ways in which the claim leaves it.
pub open spec fn resolvable(state: Attempt, action: Action) -> bool {
    ||| action is Finish
    ||| state is Deferring && action is Defer
    ||| state is Sending && action is Send
}

/// Whether deferring the task with `id` on behalf of `tx` fails.
pub open spec fn deferral_fails(queue: QueueView, tx: u64, id: u128, n_retries: u32, now: i64) -> bool {
    queue.conflicts(tx, id) || queue.defer_out_of_range(tx, id, n_retries, now)
}

/// The store after `tx` has deferred the task with `id` and committed, or,
/// if the deferral failed, rolled back.
pub open spec fn deferral_store(queue: QueueView, tx: u64, id: u128, n_retries: u32, now: i64) -> QueueView {
    if deferral_fails(queue, tx, id, n_retries, now) {
        queue.after_rollback(tx)
    } else {
        queue.after_defer(tx, id, n_retries, now).after_commit(tx)
    }
}

/// The store after an attempt that stood at `state` with `action` after its
/// claim has been resolved by `tx` at `now`, `sent` telling whether the mail
/// client got the message out.
pub open spec fn resolution_store(
    queue: QueueView,
    tx: u64,
    now: i64,
    state: Attempt,
    action: Action,
    sent: bool,
) -> QueueView {
    match action {
        Action::Defer { id, n_retries } => deferral_store(queue, tx, id, n_retries, now),
        Action::Send { .. } => if !sent {
            deferral_store(queue, tx, state->Sending_id, state->Sending_n_retries, now)
        } else if queue.conflicts(tx, state->Sending_id) {
            queue.after_rollback(tx)
        } else {
            queue.after_pop(tx, state->Sending_id).after_commit(tx)
        },
        _ => queue.after_rollback(tx),
    }
}

/// How an attempt that stood at `state` with `action` after its claim ends
/// when `tx` resolves it at `now`.
pub open spec fn resolution_outcome(
    queue: QueueView,
    tx: u64,
    now: i64,
    state: Attempt,
    action: Action,
    sent: bool,
) -> Outcome {
    match action {
        Action::Finish(done) => outcome_of(done),
        Action::Defer { id, n_retries } => if deferral_fails(queue, tx, id, n_retries, now) {
            Outcome::DatabaseError
        } else {
            outcome_of(Err(state->Deferring_cause))
        },
        Action::Send { .. } => if !sent {
            if deferral_fails(queue, tx, state->Sending_id, state->Sending_n_retries, now) {
                Outcome::DatabaseError
            } else {
                Outcome::EmailClientError
            }
        } else if queue.conflicts(tx, state->Sending_id) {
            Outcome::DatabaseError
        } else {
            Outcome::Delivered
        },
        _ => Outcome::DatabaseError,
    }
}

/// The first half of an attempt: as transaction `tx` at the instant `now`,
/// claims the oldest eligible task and decides on it. The claimed row stays
/// locked for `tx` until [`resolve_task`] ends the attempt, so that attempts
/// of other transactions that start meanwhile pass it over.
pub fn claim_task(queue: &mut DeliveryQueue, tx: u64, now: i64) -> (next: (Attempt, Action))
    requires
        old(queue).wf(),
    ensures
        final(queue).wf(),
        final(queue)@ == old(queue)@.after_claim(tx, now),
        decides(old(queue)@.claim_result(tx, now), next.0, next.1),
        resolvable(next.0, next.1),
{
    let (state, action) = begin_attempt();
    let (state, action) = step(state, Event::Begun);
    let claimed = peek_task(queue, tx, now);
    step(state, Event::Claimed(claimed))
}

/// The second half of an attempt: resolves, as transaction `tx` at the
/// instant `now`, the attempt that stands at `state` with `action` after its
/// claim. `delivery` is what the mail client answers if it is asked to send.
///
/// An attempt that claimed nothing ends as it stands. A task to defer is
/// deferred; a task to send is deleted if the mail client got it out and
/// deferred if not. Deferral and deletion are committed before the attempt
/// ends; if the store refuses one, the transaction is rolled back and the
/// attempt ends with the store's failure. Either way `tx` holds nothing
/// afterwards.
pub fn resolve_task(
    queue: &mut DeliveryQueue,
    tx: u64,
    now: i64,
    state: Attempt,
    action: Action,
    delivery: Result<(), EmailClientError>,
) -> (done: Result<(), TryTaskError>)
    requires
        old(queue).wf(),
        resolvable(state, action),
    ensures
        final(queue).wf(),
        final(queue)@ == resolution_store(old(queue)@, tx, now, state, action, delivery is Ok),
        outcome_of(done) == resolution_outcome(
            old(queue)@,
            tx,
            now,
            state,
            action,
            delivery is Ok,
        ),
        match action {
            Action::Finish(end) => done == end,
            Action::Defer { id, n_retries } => if deferral_fails(
                old(queue)@,
                tx,
                id,
                n_retries,
                now,
            ) {
                done matches Err(TryTaskError::DatabaseError(failure)) && (failure is RowLocked
                    || failure is OutOfRange) && (failure is RowLocked == old(queue)@.conflicts(
                    tx,
                    id,
                ))
            } else {
                done == Err::<(), TryTaskError>(state->Deferring_cause)
            },
            Action::Send { .. } => match delivery {
                Ok(_) => done is Ok || (done matches Err(TryTaskError::DatabaseError(failure))
                    && failure is RowLocked),
                Err(refusal) => if deferral_fails(
                    old(queue)@,
                    tx,
                    state->Sending_id,
                    state->Sending_n_retries,
                    now,
                ) {
                    done matches Err(TryTaskError::DatabaseError(failure)) && (
                    failure is RowLocked || failure is OutOfRange) && (failure is RowLocked
                        == old(queue)@.conflicts(tx, state->Sending_id))
                } else {
                    done == Err::<(), TryTaskError>(TryTaskError::EmailClientError(refusal))
                },
            },
            _ => true,
        },
{
    match action {
        Action::Finish(done) => finish(queue, tx, Action::Finish(done)),
        Action::Defer { id, n_retries } => defer_and_finish(queue, tx, now, state, id, n_retries),
        Action::Send { recipient, subject, email_html, email_text } => {
            let (state, action) = step(state, Event::Sent(delivery));
            match action {
                Action::Complete { id } => {
                    match pop_task(queue, tx, id) {
                        Ok(()) => {
                            let (state, action) = step(state, Event::Completed);
                            commit_and_finish(queue, tx, state)
                        },
                        Err(failure) => {
                            let (state, action) = step(state, Event::StoreFailed(failure));
                            finish(queue, tx, action)
                        },
                    }
                },
                Action::Defer { id, n_retries } => defer_and_finish(
                    queue,
                    tx,
                    now,
                    state,
                    id,
                    n_retries,
                ),
                _ => unreached(),
            }
        },
        _ => unreached(),
    }
}

/// Runs one delivery attempt as transaction `tx` at the instant `now`:
/// claims the oldest eligible task with [`claim_task`] and resolves it with
/// [`resolve_task`]. `delivery` is what the mail client answers if it is
/// asked to send.
///
/// With nothing to claim the attempt ends as `NoPendingTask` and the store is
/// as before. A task whose recipient is no address is deferred and the
/// attempt ends as `CorruptedData`; a task the mail client fails to send is
/// deferred and the attempt ends with the client's own error. A task that is
/// sent is deleted. Each of these is committed before the attempt ends, and
/// the transaction holds nothing afterwards. A deferral that cannot be
/// stored ends the attempt as `DatabaseError`, with the transaction rolled
/// back.
pub fn try_execute_task(
    queue: &mut DeliveryQueue,
    tx: u64,
    now: i64,
    delivery: Result<(), EmailClientError>,
) -> (done: Result<(), TryTaskError>)
    requires
        old(queue).wf(),
    ensures
        final(queue).wf(),
        final(queue)@ == attempt_store(old(queue)@, tx, now, delivery is Ok),
        outcome_of(done) == attempt_outcome(old(queue)@, tx, now, delivery is Ok),
        done matches Err(TryTaskError::EmailClientError(failure)) ==> delivery == Err::<
            (),
            EmailClientError,
        >(failure),
        done matches Err(TryTaskError::CorruptedData(refused)) ==> (old(queue)@.claim_result(
            tx,
            now,
        ) matches Some(task) && task.email == refused.email@),
        done matches Err(TryTaskError::DatabaseError(failure)) ==> failure is OutOfRange,
{
    let ghost before = queue@;
    let (state, action) = claim_task(queue, tx, now);
    proof {
        if before.has_claimable(tx, now) {
            lemma_claimed_row_is_held(before, tx, now);
        }
    }
    resolve_task(queue, tx, now, state, action, delivery)
}

/// One round of the worker: when the attempt started, how it ended, and the
/// pace the worker took after it.
#[derive(Debug, Clone, Copy, PartialEq, Eq, Structural)]
pub struct Round {
    pub started_at: i64,
    pub outcome: Outcome,
    pub pace: Pace,
}

/// The round that an attempt by `tx` at `now` on `queue` makes.
pub open spec fn round_at(queue: QueueView, tx: u64, now: i64, sent: bool) -> Round {
    let outcome = attempt_outcome(queue, tx, now, sent);
    Round { started_at: now, outcome, pace: pace_for(outcome) }
}

/// The rounds of a worker that starts at `now` on `queue` and makes one
/// attempt per entry of `deliveries`, each entry telling whether the mail
/// client gets a message out in that round. Between rounds the clock moves on
/// by the pause of the round; the worker stops early if the clock cannot.
pub open spec fn worker_rounds(queue: QueueView, tx: u64, now: i64, deliveries: Seq<bool>) -> Seq<
    Round,
>
    decreases deliveries.len(),
{
    if deliveries.len() == 0 {
        Seq::empty()
    } else {
        let round = round_at(queue, tx, now, deliveries[0]);
        if now + round.pace.pause_secs > i64::MAX {
            seq![round]
        } else {
            seq![round] + worker_rounds(
                attempt_store(queue, tx, now, deliveries[0]),
                tx,
                (now + round.pace.pause_secs) as i64,
                deliveries.drop_first(),
            )
        }
    }
}

/// The store that the worker of [`worker_rounds`] leaves.
pub open spec fn worker_store(queue: QueueView, tx: u64, now: i64, deliveries: Seq<bool>) -> QueueView
    decreases deliveries.len(),
{
    if deliveries.len() == 0 {
        queue
    } else {
        let round = round_at(queue, tx, now, deliveries[0]);
        let next = attempt_store(queue, tx, now, deliveries[0]);
        if now + round.pace.pause_secs > i64::MAX {
            next
        } else {
            worker_store(next, tx, (now + round.pace.pause_secs) as i64, deliveries.drop_first())
        }
    }
}

/// Runs the worker as transaction `tx` on `queue`, with the clock starting at
/// `start`: one attempt per entry of `deliveries`, which tells whether the
/// mail client gets a message out in that round. After each attempt the
/// worker rests as [`pace_after`] says, which moves the clock on; no end of an
/// attempt stops it. It stops when `deliveries` is used up, or early if the
/// clock cannot move on, and returns its rounds in order.
pub fn worker(queue: &mut DeliveryQueue, tx: u64, start: i64, deliveries: &Vec<bool>) -> (rounds:
    Vec<Round>)
    requires
        old(queue).wf(),
    ensures
        final(queue).wf(),
        rounds@ == worker_rounds(old(queue)@, tx, start, deliveries@),
        final(queue)@ == worker_store(old(queue)@, tx, start, deliveries@),
{
    let mut rounds: Vec<Round> = Vec::new();
    let mut now: i64 = start;
    let mut i: usize = 0;
    assert(deliveries@.subrange(0, deliveries@.len() as int) =~= deliveries@);
    while i < deliveries.len()
        invariant
            i <= deliveries.len(),
            queue.wf(),
            rounds@ + worker_rounds(
                queue@,
                tx,
                now,
                deliveries@.subrange(i as int, deliveries@.len() as int),
            ) == worker_rounds(old(queue)@, tx, start, deliveries@),
            worker_store(
                queue@,
                tx,
                now,
                deliveries@.subrange(i as int, deliveries@.len() as int),
            ) == worker_store(old(queue)@, tx, start, deliveries@),
        decreases deliveries.len() - i,
    {
        let ghost rest = deliveries@.subrange(i as int, deliveries@.len() as int);
        let ghost before = queue@;
        let ghost so_far = rounds@;
        let sent = deliveries[i];
        let done = try_execute_task(queue, tx, now, delivery_outcome(sent));
        let pace = pace_after(&done);
        let round = Round { started_at: now, outcome: classify(&done), pace };
        rounds.push(round);
        proof {
            assert(rest[0] == sent);
            assert(rest.drop_first() =~= deliveries@.subrange(
                i as int + 1,
                deliveries@.len() as int,
            ));
            assert(round == round_at(before, tx, now, sent));
        }
        let resumed = now.checked_add(pace.pause_secs as i64);
        match resumed {
            Some(next) => {
                proof {
                    assert(rounds@ + worker_rounds(queue@, tx, next, rest.drop_first()) =~= so_far
                        + worker_rounds(before, tx, now, rest));
                }
                now = next;
            },
            None => {
                proof {
                    assert(worker_rounds(before, tx, now, rest) =~= seq![round]);
                    assert(rounds@ =~= so_far + seq![round]);
                }
                return rounds;
            },
        }
        i = i + 1;
    }
    proof {
        assert(rounds@ + Seq::<Round>::empty() =~= rounds@);
    }
    rounds
}

} // verus!
