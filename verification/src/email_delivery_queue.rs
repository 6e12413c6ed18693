//! The task store as an in-memory model: [`DeliveryQueue`] holds the table of
//! pending deliveries in memory and runs the four statements that touch it
//! (enqueue, claim, complete, defer) inside transactions, as the contract of
//! the store asks. It is what the tests and the proofs of the library run
//! on; a database that serves the same statements is reached from outside
//! the library.
//!
//! A transaction is named by a number its owner picks. What a transaction
//! writes stays private to it, behind a row lock, until it commits; rolling it
//! back leaves the table as if the transaction had never run. A claim takes the
//! oldest eligible row that no other transaction holds, so concurrent claimers
//! are each handed a different row.

use crate::backoff::{next_eligible, next_eligible_at, retry_delay, shift_in_range};
use std::collections::HashMap;
use vstd::prelude::*;
use vstd::string::*;

verus! {

broadcast use vstd::std_specs::hash::group_hash_axioms;

/// Why a statement against the store failed.
#[derive(Debug)]
pub enum StoreError {
    /// The database could not be reached or refused the statement.
    Unavailable(String),
    /// A row with the same id exists already.
    DuplicateId,
    /// Another transaction holds the row.
    RowLocked,
    /// The retry counter or the eligibility instant left its range.
    OutOfRange,
}

/// What is said of an id that is taken.
pub const DUPLICATE_ID: &'static str = "A task with this id exists already";

/// What is said of a row that another transaction holds.
pub const ROW_LOCKED: &'static str = "Another transaction holds the task";

/// What is said of a retry counter or instant that left its range.
pub const OUT_OF_RANGE: &'static str = "The retry counter or the eligibility instant is out of range";

impl StoreError {
    /// What the failure says: the database's own words where it has any.
    pub open spec fn message_text(&self) -> Seq<char> {
        match self {
            StoreError::Unavailable(words) => words@,
            StoreError::DuplicateId => DUPLICATE_ID@,
            StoreError::RowLocked => ROW_LOCKED@,
            StoreError::OutOfRange => OUT_OF_RANGE@,
        }
    }

    /// What the failure says.
    pub fn message(&self) -> (text: String)
        ensures
            text@ == self.message_text(),
    {
        match self {
            StoreError::Unavailable(words) => words.clone(),
            StoreError::DuplicateId => String::from_str(DUPLICATE_ID),
            StoreError::RowLocked => String::from_str(ROW_LOCKED),
            StoreError::OutOfRange => String::from_str(OUT_OF_RANGE),
        }
    }
}

/// A retry counter with the instant from which the row is eligible again.
#[derive(Debug, Clone, Copy, PartialEq, Eq, Structural)]
pub struct RetryState {
    pub n_retries: u32,
    pub send_after: i64,
}

/// One claimed delivery, as handed to a worker.
#[derive(Debug)]
pub struct EmailDeliveryTask {
    pub id: u128,
    pub subscriber_id: u128,
    pub email: String,
    pub subject: String,
    pub email_html: String,
    pub email_text: String,
    pub created_at: i64,
    pub n_retries: u32,
    pub send_after: i64,
}

/// The mathematical content of a claimed delivery.
pub struct TaskView {
    pub id: u128,
    pub subscriber_id: u128,
    pub email: Seq<char>,
    pub subject: Seq<char>,
    pub email_html: Seq<char>,
    pub email_text: Seq<char>,
    pub created_at: i64,
    pub n_retries: u32,
    pub send_after: i64,
}

impl View for EmailDeliveryTask {
    type V = TaskView;

    open spec fn view(&self) -> TaskView {
        TaskView {
            id: self.id,
            subscriber_id: self.subscriber_id,
            email: self.email@,
            subject: self.subject@,
            email_html: self.email_html@,
            email_text: self.email_text@,
            created_at: self.created_at,
            n_retries: self.n_retries,
            send_after: self.send_after,
        }
    }
}

/// One row of the table, with what its lock holder has staged on it.
pub struct RowView {
    pub id: u128,
    pub subscriber_id: u128,
    pub subject: Seq<char>,
    pub email_html: Seq<char>,
    pub email_text: Seq<char>,
    pub created_at: i64,
    /// Committed retry counter.
    pub n_retries: u32,
    /// Committed eligibility instant.
    pub send_after: i64,
    /// The transaction that holds the row, if any.
    pub lock: Option<u64>,
    /// Inserted by the lock holder and not yet committed.
    pub fresh: bool,
    /// Deleted by the lock holder and not yet committed.
    pub deleted: bool,
    /// Retry counter and eligibility instant written by the lock holder and
    /// not yet committed.
    pub staged: Option<RetryState>,
}

impl RowView {
    /// Only a lock holder stages changes, and a staged retry counter is
    /// larger than the committed one.
    pub open spec fn wf(self) -> bool {
        &&& (self.fresh || self.deleted || self.staged is Some) ==> self.lock is Some
        &&& self.staged matches Some(staged) ==> staged.n_retries > self.n_retries
    }

    /// Whether transaction `tx` holds the row.
    pub open spec fn held_by(self, tx: u64) -> bool {
        self.lock == Some(tx)
    }

    /// Whether another transaction than `tx` holds the row.
    pub open spec fn blocked_for(self, tx: u64) -> bool {
        self.lock is Some && self.lock != Some(tx)
    }

    /// Whether the row exists for the statements of `tx`: its own deletions
    /// are gone, the uncommitted insertions of others are not there yet.
    pub open spec fn seen_by(self, tx: u64) -> bool {
        if self.held_by(tx) {
            !self.deleted
        } else {
            !self.fresh
        }
    }

    /// The retry counter that `tx` reads.
    pub open spec fn retries_for(self, tx: u64) -> u32 {
        if self.held_by(tx) && self.staged is Some {
            self.staged->0.n_retries
        } else {
            self.n_retries
        }
    }

    /// The eligibility instant that `tx` reads.
    pub open spec fn send_after_for(self, tx: u64) -> i64 {
        if self.held_by(tx) && self.staged is Some {
            self.staged->0.send_after
        } else {
            self.send_after
        }
    }

    /// Whether `tx` may claim the row at `now`: it exists for `tx`, no other
    /// transaction holds it, its eligibility instant has come, and its
    /// subscriber is on record.
    pub open spec fn claimable_by(self, tx: u64, now: i64, subscribers: Map<u128, Seq<char>>) -> bool {
        &&& self.seen_by(tx)
        &&& !self.blocked_for(tx)
        &&& self.send_after_for(tx) <= now
        &&& subscribers.contains_key(self.subscriber_id)
    }

    /// The row once `tx` has taken its lock.
    pub open spec fn locked_by(self, tx: u64) -> RowView {
        RowView { lock: Some(tx), ..self }
    }

    /// The row once its holder `tx` has deleted it.
    pub open spec fn deleted_by(self, tx: u64) -> RowView {
        RowView { lock: Some(tx), deleted: true, ..self }
    }

    /// The row once its holder `tx` has written a retry counter and an
    /// eligibility instant.
    pub open spec fn deferred_by(self, tx: u64, n_retries: u32, send_after: i64) -> RowView {
        RowView { lock: Some(tx), staged: Some(RetryState { n_retries, send_after }), ..self }
    }

    /// Whether the row survives the commit of `tx`.
    pub open spec fn survives_commit(self, tx: u64) -> bool {
        !(self.held_by(tx) && self.deleted)
    }

    /// Whether the row survives the rollback of `tx`.
    pub open spec fn survives_rollback(self, tx: u64) -> bool {
        !(self.held_by(tx) && self.fresh)
    }

    /// A surviving row after the commit of `tx`: what `tx` staged is now the
    /// committed content, and the lock is gone.
    pub open spec fn committed(self, tx: u64) -> RowView {
        if self.held_by(tx) {
            RowView {
                n_retries: self.retries_for(tx),
                send_after: self.send_after_for(tx),
                lock: None,
                fresh: false,
                deleted: false,
                staged: None,
                ..self
            }
        } else {
            self
        }
    }

    /// A surviving row after the rollback of `tx`: what `tx` staged is
    /// forgotten, and the lock is gone.
    pub open spec fn rolled_back(self, tx: u64) -> RowView {
        if self.held_by(tx) {
            RowView { lock: None, fresh: false, deleted: false, staged: None, ..self }
        } else {
            self
        }
    }

    /// The delivery that `tx` reads from the row, addressed to `email`.
    pub open spec fn task_for(self, tx: u64, email: Seq<char>) -> TaskView {
        TaskView {
            id: self.id,
            subscriber_id: self.subscriber_id,
            email,
            subject: self.subject,
            email_html: self.email_html,
            email_text: self.email_text,
            created_at: self.created_at,
            n_retries: self.retries_for(tx),
            send_after: self.send_after_for(tx),
        }
    }
}

/// A new row as its inserting transaction `tx` stages it at `now`: never
/// retried, eligible at once.
pub open spec fn fresh_row(
    tx: u64,
    id: u128,
    subscriber_id: u128,
    subject: Seq<char>,
    email_html: Seq<char>,
    email_text: Seq<char>,
    now: i64,
) -> RowView {
    RowView {
        id,
        subscriber_id,
        subject,
        email_html,
        email_text,
        created_at: now,
        n_retries: 0,
        send_after: now,
        lock: Some(tx),
        fresh: true,
        deleted: false,
        staged: None,
    }
}

/// The mathematical content of the store: the rows in insertion order and the
/// address on record for each subscriber.
pub struct QueueView {
    pub rows: Seq<RowView>,
    pub subscribers: Map<u128, Seq<char>>,
}

impl QueueView {
    /// Every row is well formed and no id occurs twice.
    pub open spec fn wf(self) -> bool {
        &&& forall|i: int| 0 <= i < self.rows.len() ==> (#[trigger] self.rows[i]).wf()
        &&& forall|i: int, j: int|
            0 <= i < self.rows.len() && 0 <= j < self.rows.len() && i != j ==> (
            #[trigger] self.rows[i]).id != (#[trigger] self.rows[j]).id
    }

    /// Whether some row, committed or not, carries `id`.
    pub open spec fn has_id(self, id: u128) -> bool {
        exists|i: int| 0 <= i < self.rows.len() && (#[trigger] self.rows[i]).id == id
    }

    /// The position of the row that carries `id`.
    pub open spec fn position(self, id: u128) -> int
        recommends
            self.has_id(id),
    {
        choose|i: int| 0 <= i < self.rows.len() && (#[trigger] self.rows[i]).id == id
    }

    /// Whether transaction `tx` holds no row.
    pub open spec fn untouched_by(self, tx: u64) -> bool {
        forall|i: int| 0 <= i < self.rows.len() ==> !(#[trigger] self.rows[i]).held_by(tx)
    }

    /// Whether row `i` is the oldest row that `tx` may claim at `now`.
    pub open spec fn is_first_claimable(self, i: int, tx: u64, now: i64) -> bool {
        &&& 0 <= i < self.rows.len()
        &&& self.rows[i].claimable_by(tx, now, self.subscribers)
        &&& forall|j: int|
            0 <= j < i ==> !(#[trigger] self.rows[j]).claimable_by(tx, now, self.subscribers)
    }

    /// Whether `tx` may claim any row at `now`.
    pub open spec fn has_claimable(self, tx: u64, now: i64) -> bool {
        exists|i: int| self.is_first_claimable(i, tx, now)
    }

    /// The position of the oldest row that `tx` may claim at `now`.
    pub open spec fn first_claimable(self, tx: u64, now: i64) -> int
        recommends
            self.has_claimable(tx, now),
    {
        choose|i: int| self.is_first_claimable(i, tx, now)
    }

    /// What a claim by `tx` at `now` returns: the oldest claimable row, read
    /// with the address now on record for its subscriber, or nothing.
    pub open spec fn claim_result(self, tx: u64, now: i64) -> Option<TaskView> {
        if self.has_claimable(tx, now) {
            let row = self.rows[self.first_claimable(tx, now)];
            Some(row.task_for(tx, self.subscribers[row.subscriber_id]))
        } else {
            None
        }
    }

    /// The store after a claim by `tx` at `now`: the claimed row is locked.
    pub open spec fn after_claim(self, tx: u64, now: i64) -> QueueView {
        if self.has_claimable(tx, now) {
            let i = self.first_claimable(tx, now);
            QueueView { rows: self.rows.update(i, self.rows[i].locked_by(tx)), ..self }
        } else {
            self
        }
    }

    /// Whether a statement of `tx` on the row with `id` finds a row to act on.
    pub open spec fn targets(self, tx: u64, id: u128) -> bool {
        self.has_id(id) && self.rows[self.position(id)].seen_by(tx)
    }

    /// Whether a statement of `tx` on the row with `id` runs into the lock of
    /// another transaction.
    pub open spec fn conflicts(self, tx: u64, id: u128) -> bool {
        self.targets(tx, id) && self.rows[self.position(id)].blocked_for(tx)
    }

    /// The store after `tx` has deleted the row with `id`. A row that is not
    /// there for `tx`, or that another transaction holds, stays as it is.
    pub open spec fn after_pop(self, tx: u64, id: u128) -> QueueView {
        if self.targets(tx, id) && !self.conflicts(tx, id) {
            let i = self.position(id);
            QueueView { rows: self.rows.update(i, self.rows[i].deleted_by(tx)), ..self }
        } else {
            self
        }
    }

    /// Whether deferring the row with `id` at `now`, after `n_retries` earlier
    /// failures, leaves the range of the retry counter or of the calendar.
    pub open spec fn defer_out_of_range(self, tx: u64, id: u128, n_retries: u32, now: i64) -> bool {
        &&& self.targets(tx, id)
        &&& !self.conflicts(tx, id)
        &&& (!shift_in_range(now as int, retry_delay(n_retries as nat) as int)
            || self.rows[self.position(id)].retries_for(tx) == u32::MAX)
    }

    /// The store after `tx` has deferred the row with `id` at `now`: the retry
    /// counter it reads grows by one and the row becomes eligible again after
    /// the delay for `n_retries` earlier failures. A row that is not there
    /// for `tx`, that another transaction holds, or whose new content leaves
    /// its range, stays as it is.
    pub open spec fn after_defer(self, tx: u64, id: u128, n_retries: u32, now: i64) -> QueueView {
        if self.targets(tx, id) && !self.conflicts(tx, id) && !self.defer_out_of_range(
            tx,
            id,
            n_retries,
            now,
        ) {
            let i = self.position(id);
            let row = self.rows[i];
            QueueView {
                rows: self.rows.update(
                    i,
                    row.deferred_by(
                        tx,
                        (row.retries_for(tx) + 1) as u32,
                        next_eligible_at(now as int, n_retries as nat) as i64,
                    ),
                ),
                ..self
            }
        } else {
            self
        }
    }

    /// The store after `tx` has inserted `row`. An id that is taken leaves it
    /// as it is.
    pub open spec fn after_insert(self, row: RowView) -> QueueView {
        if self.has_id(row.id) {
            self
        } else {
            QueueView { rows: self.rows.push(row), ..self }
        }
    }

    /// The store after `tx` has committed: the rows it deleted are gone, what
    /// it staged on the others is their content, and it holds no lock.
    pub open spec fn after_commit(self, tx: u64) -> QueueView {
        QueueView {
            rows: self.rows.filter(|row: RowView| row.survives_commit(tx)).map_values(
                |row: RowView| row.committed(tx),
            ),
            ..self
        }
    }

    /// The store after `tx` has rolled back: the rows it inserted are gone,
    /// what it staged on the others is forgotten, and it holds no lock.
    pub open spec fn after_rollback(self, tx: u64) -> QueueView {
        QueueView {
            rows: self.rows.filter(|row: RowView| row.survives_rollback(tx)).map_values(
                |row: RowView| row.rolled_back(tx),
            ),
            ..self
        }
    }

    /// The committed content of the row with `id`: what every transaction
    /// would read once all open transactions had rolled back.
    pub open spec fn committed_row(self, id: u128) -> Option<RowView> {
        if self.has_id(id) && !self.rows[self.position(id)].fresh {
            let row = self.rows[self.position(id)];
            Some(RowView { lock: None, deleted: false, staged: None, ..row })
        } else {
            None
        }
    }
}


/// One stored row.
struct Row {
    id: u128,
    subscriber_id: u128,
    subject: String,
    email_html: String,
    email_text: String,
    created_at: i64,
    n_retries: u32,
    send_after: i64,
    lock: Option<u64>,
    fresh: bool,
    deleted: bool,
    staged: Option<RetryState>,
}

impl View for Row {
    type V = RowView;

    closed spec fn view(&self) -> RowView {
        RowView {
            id: self.id,
            subscriber_id: self.subscriber_id,
            subject: self.subject@,
            email_html: self.email_html@,
            email_text: self.email_text@,
            created_at: self.created_at,
            n_retries: self.n_retries,
            send_after: self.send_after,
            lock: self.lock,
            fresh: self.fresh,
            deleted: self.deleted,
            staged: self.staged,
        }
    }
}

/// The store, modelled in memory: pending deliveries in insertion order, and
/// the address on record for each subscriber. Nothing of it outlives the
/// process.
pub struct DeliveryQueue {
    rows: Vec<Row>,
    subscribers: HashMap<u128, String>,
}

impl View for DeliveryQueue {
    type V = QueueView;

    closed spec fn view(&self) -> QueueView {
        QueueView {
            rows: self.rows@.map_values(|row: Row| row@),
            subscribers: Map::new(
                |id: u128| self.subscribers@.contains_key(id),
                |id: u128| self.subscribers@[id]@,
            ),
        }
    }
}

impl DeliveryQueue {
    /// The store's invariant: that of its content.
    pub open spec fn wf(&self) -> bool {
        self@.wf()
    }

    /// An empty store.
    pub fn new() -> (queue: DeliveryQueue)
        ensures
            queue.wf(),
            queue@.rows.len() == 0,
            queue@.subscribers == Map::<u128, Seq<char>>::empty(),
    {
        let queue = DeliveryQueue { rows: Vec::new(), subscribers: HashMap::new() };
        assert(queue@.subscribers =~= Map::<u128, Seq<char>>::empty());
        queue
    }

    /// Records `email` as the address of subscriber `id`, replacing what was
    /// on record.
    pub fn set_subscriber(&mut self, id: u128, email: &str)
        requires
            old(self).wf(),
        ensures
            final(self).wf(),
            final(self)@ == (QueueView {
                subscribers: old(self)@.subscribers.insert(id, email@),
                ..old(self)@
            }),
    {
        self.subscribers.insert(id, email.to_owned());
        assert(self@.subscribers =~= old(self)@.subscribers.insert(id, email@));
    }

    /// Forgets subscriber `id`.
    pub fn remove_subscriber(&mut self, id: u128)
        requires
            old(self).wf(),
        ensures
            final(self).wf(),
            final(self)@ == (QueueView {
                subscribers: old(self)@.subscribers.remove(id),
                ..old(self)@
            }),
    {
        self.subscribers.remove(&id);
        assert(self@.subscribers =~= old(self)@.subscribers.remove(id));
    }

    /// The number of rows, uncommitted ones included.
    pub fn len(&self) -> (n: usize)
        ensures
            n == self@.rows.len(),
    {
        self.rows.len()
    }

    /// The position of the row that carries `id`.
    fn find(&self, id: u128) -> (found: Option<usize>)
        requires
            self.wf(),
        ensures
            found is Some == self@.has_id(id),
            found matches Some(i) ==> i == self@.position(id) && i < self.rows.len(),
    {
        let mut i: usize = 0;
        while i < self.rows.len()
            invariant
                i <= self.rows.len(),
                self.wf(),
                forall|j: int| 0 <= j < i ==> (#[trigger] self@.rows[j]).id != id,
            decreases self.rows.len() - i,
        {
            if self.rows[i].id == id {
                assert(self@.rows[i as int].id == id);
                return Some(i);
            }
            i = i + 1;
        }
        None
    }
}


/// The oldest claimable row is the only one that is the oldest claimable row.
pub proof fn lemma_first_claimable_unique(queue: QueueView, i: int, tx: u64, now: i64)
    requires
        queue.is_first_claimable(i, tx, now),
    ensures
        queue.has_claimable(tx, now),
        queue.first_claimable(tx, now) == i,
{
    let k = queue.first_claimable(tx, now);
    assert(queue.is_first_claimable(k, tx, now));
    if k < i {
        assert(!queue.rows[k].claimable_by(tx, now, queue.subscribers));
    }
    if i < k {
        assert(!queue.rows[i].claimable_by(tx, now, queue.subscribers));
    }
}

/// Claims the oldest task that is eligible at `now` and that no other
/// transaction holds, and locks its row for `tx`. The task carries the
/// address now on record for its subscriber; rows whose subscriber is not on
/// record are passed over. Returns nothing when no row can be claimed.
pub fn peek_task(queue: &mut DeliveryQueue, tx: u64, now: i64) -> (claimed: Option<
    EmailDeliveryTask,
>)
    requires
        old(queue).wf(),
    ensures
        final(queue).wf(),
        final(queue)@ == old(queue)@.after_claim(tx, now),
        claimed is Some == old(queue)@.has_claimable(tx, now),
        claimed matches Some(task) ==> Some(task@) == old(queue)@.claim_result(tx, now),
{
    let mut i: usize = 0;
    while i < queue.rows.len()
        invariant
            i <= queue.rows.len(),
            *queue == *old(queue),
            queue.wf(),
            forall|j: int|
                0 <= j < i ==> !(#[trigger] queue@.rows[j]).claimable_by(
                    tx,
                    now,
                    queue@.subscribers,
                ),
        decreases queue.rows.len() - i,
    {
        let row = &queue.rows[i];
        let held = match row.lock {
            Some(owner) => owner == tx,
            None => false,
        };
        let seen = if held {
            !row.deleted
        } else {
            !row.fresh
        };
        let blocked = row.lock.is_some() && !held;
        let send_after: i64 = match row.staged {
            Some(staged) => if held {
                staged.send_after
            } else {
                row.send_after
            },
            None => row.send_after,
        };
        let n_retries: u32 = match row.staged {
            Some(staged) => if held {
                staged.n_retries
            } else {
                row.n_retries
            },
            None => row.n_retries,
        };
        if seen && !blocked && send_after <= now {
            match queue.subscribers.get(&row.subscriber_id) {
                Some(email) => {
                    let task = EmailDeliveryTask {
                        id: row.id,
                        subscriber_id: row.subscriber_id,
                        email: email.clone(),
                        subject: row.subject.clone(),
                        email_html: row.email_html.clone(),
                        email_text: row.email_text.clone(),
                        created_at: row.created_at,
                        n_retries,
                        send_after,
                    };
                    proof {
                        assert(queue@.rows[i as int] == row@);
                        assert(queue@.is_first_claimable(i as int, tx, now));
                        lemma_first_claimable_unique(queue@, i as int, tx, now);
                    }
                    queue.rows[i].lock = Some(tx);
                    proof {
                        assert(queue@.rows =~= old(queue)@.rows.update(
                            i as int,
                            old(queue)@.rows[i as int].locked_by(tx),
                        ));
                        assert(queue@.subscribers =~= old(queue)@.subscribers);
                    }
                    return Some(task);
                },
                None => {},
            }
        }
        assert(!queue@.rows[i as int].claimable_by(tx, now, queue@.subscribers));
        i = i + 1;
    }
    proof {
        if queue@.has_claimable(tx, now) {
            let k = queue@.first_claimable(tx, now);
            assert(queue@.is_first_claimable(k, tx, now));
            assert(!queue@.rows[k].claimable_by(tx, now, queue@.subscribers));
        }
    }
    None
}


/// Deletes the task with `id` on behalf of `tx`; the deletion takes effect
/// when `tx` commits. Deleting a task that is not there is not an error and
/// changes nothing. A task held by another transaction is left alone and the
/// conflict is reported.
pub fn pop_task(queue: &mut DeliveryQueue, tx: u64, id: u128) -> (done: Result<(), StoreError>)
    requires
        old(queue).wf(),
    ensures
        final(queue).wf(),
        final(queue)@ == old(queue)@.after_pop(tx, id),
        done is Err == old(queue)@.conflicts(tx, id),
        done matches Err(e) ==> e is RowLocked,
{
    match queue.find(id) {
        Some(i) => {
            let row = &queue.rows[i];
            let held = match row.lock {
                Some(owner) => owner == tx,
                None => false,
            };
            let seen = if held {
                !row.deleted
            } else {
                !row.fresh
            };
            proof {
                assert(queue@.rows[i as int] == row@);
            }
            if !seen {
                return Ok(());
            }
            if row.lock.is_some() && !held {
                return Err(StoreError::RowLocked);
            }
            queue.rows[i].lock = Some(tx);
            queue.rows[i].deleted = true;
            proof {
                assert(queue@.rows =~= old(queue)@.rows.update(
                    i as int,
                    old(queue)@.rows[i as int].deleted_by(tx),
                ));
                assert(queue@.subscribers =~= old(queue)@.subscribers);
            }
            Ok(())
        },
        None => Ok(()),
    }
}

/// Defers the task with `id` on behalf of `tx` after a failed attempt at
/// `now`: its retry counter grows by one, and it becomes eligible again once
/// the delay for `n_retries` earlier failures has passed. The change takes
/// effect when `tx` commits. Deferring a task that is not there is not an
/// error and changes nothing. A task held by another transaction, or one whose
/// new counter or instant cannot be represented, is left alone and the
/// failure is reported.
pub fn deprioritise_task(
    queue: &mut DeliveryQueue,
    tx: u64,
    id: u128,
    n_retries: u32,
    now: i64,
) -> (done: Result<(), StoreError>)
    requires
        old(queue).wf(),
    ensures
        final(queue).wf(),
        final(queue)@ == old(queue)@.after_defer(tx, id, n_retries, now),
        done is Err == (old(queue)@.conflicts(tx, id) || old(queue)@.defer_out_of_range(
            tx,
            id,
            n_retries,
            now,
        )),
        done matches Err(e) ==> if old(queue)@.conflicts(tx, id) {
            e is RowLocked
        } else {
            e is OutOfRange
        },
{
    match queue.find(id) {
        Some(i) => {
            let row = &queue.rows[i];
            let held = match row.lock {
                Some(owner) => owner == tx,
                None => false,
            };
            let seen = if held {
                !row.deleted
            } else {
                !row.fresh
            };
            let retries_read: u32 = match row.staged {
                Some(staged) => if held {
                    staged.n_retries
                } else {
                    row.n_retries
                },
                None => row.n_retries,
            };
            proof {
                assert(queue@.rows[i as int] == row@);
            }
            if !seen {
                return Ok(());
            }
            if row.lock.is_some() && !held {
                return Err(StoreError::RowLocked);
            }
            let send_after: i64 = match next_eligible(now, n_retries) {
                Some(instant) => instant,
                None => {
                    return Err(StoreError::OutOfRange);
                },
            };
            if retries_read == u32::MAX {
                return Err(StoreError::OutOfRange);
            }
            queue.rows[i].lock = Some(tx);
            queue.rows[i].staged = Some(RetryState { n_retries: retries_read + 1, send_after });
            proof {
                assert(queue@.rows =~= old(queue)@.rows.update(
                    i as int,
                    old(queue)@.rows[i as int].deferred_by(
                        tx,
                        (retries_read + 1) as u32,
                        send_after,
                    ),
                ));
                assert(queue@.subscribers =~= old(queue)@.subscribers);
            }
            Ok(())
        },
        None => Ok(()),
    }
}

/// Inserts a task under the given `id` on behalf of `tx`: never retried,
/// created at `now` and eligible at once. The row becomes visible to other
/// transactions when `tx` commits. An `id` that is taken is refused.
pub fn insert_task(
    queue: &mut DeliveryQueue,
    tx: u64,
    id: u128,
    subscriber_id: u128,
    subject: &str,
    html_content: &str,
    text_content: &str,
    now: i64,
) -> (done: Result<(), StoreError>)
    requires
        old(queue).wf(),
    ensures
        final(queue).wf(),
        final(queue)@ == old(queue)@.after_insert(
            fresh_row(tx, id, subscriber_id, subject@, html_content@, text_content@, now),
        ),
        done is Err == old(queue)@.has_id(id),
        done matches Err(e) ==> e is DuplicateId,
{
    if queue.find(id).is_some() {
        return Err(StoreError::DuplicateId);
    }
    let row = Row {
        id,
        subscriber_id,
        subject: subject.to_owned(),
        email_html: html_content.to_owned(),
        email_text: text_content.to_owned(),
        created_at: now,
        n_retries: 0,
        send_after: now,
        lock: Some(tx),
        fresh: true,
        deleted: false,
        staged: None,
    };
    queue.rows.push(row);
    proof {
        assert(queue@.rows =~= old(queue)@.rows.push(
            fresh_row(tx, id, subscriber_id, subject@, html_content@, text_content@, now),
        ));
        assert(queue@.subscribers =~= old(queue)@.subscribers);
    }
    Ok(())
}


/// The rows that pass `keep`, each settled by `settle`: the shape shared by
/// commit and rollback.
pub open spec fn resolved(
    rows: Seq<RowView>,
    keep: spec_fn(RowView) -> bool,
    settle: spec_fn(RowView) -> RowView,
) -> Seq<RowView> {
    rows.filter(keep).map_values(settle)
}

/// Resolving one more row appends it, settled, when it is kept.
pub proof fn lemma_resolved_push(
    rows: Seq<RowView>,
    row: RowView,
    keep: spec_fn(RowView) -> bool,
    settle: spec_fn(RowView) -> RowView,
)
    ensures
        resolved(rows.push(row), keep, settle) == if keep(row) {
            resolved(rows, keep, settle).push(settle(row))
        } else {
            resolved(rows, keep, settle)
        },
{
    rows.lemma_filter_push(row, keep);
    if keep(row) {
        rows.filter(keep).lemma_push_map_commute(settle, row);
    }
}

/// Whether `out` is one of `rows` that passes `keep`, settled by `settle`.
pub open spec fn settled_from(
    rows: Seq<RowView>,
    keep: spec_fn(RowView) -> bool,
    settle: spec_fn(RowView) -> RowView,
    out: RowView,
) -> bool {
    exists|k: int| 0 <= k < rows.len() && keep(#[trigger] rows[k]) && settle(rows[k]) == out
}

/// Resolving keeps the store well formed when settling keeps each row's id
/// and its well-formedness, and what is left is exactly the kept rows,
/// settled.
pub proof fn lemma_resolved_wf(
    rows: Seq<RowView>,
    keep: spec_fn(RowView) -> bool,
    settle: spec_fn(RowView) -> RowView,
)
    requires
        forall|i: int, j: int|
            0 <= i < rows.len() && 0 <= j < rows.len() && i != j ==> (#[trigger] rows[i]).id != (
            #[trigger] rows[j]).id,
        forall|i: int| 0 <= i < rows.len() ==> (#[trigger] rows[i]).wf(),
        forall|row: RowView|
            (#[trigger] settle(row)).id == row.id && (row.wf() ==> settle(row).wf()),
    ensures
        forall|i: int|
            0 <= i < resolved(rows, keep, settle).len() ==> (#[trigger] resolved(
                rows,
                keep,
                settle,
            )[i]).wf(),
        forall|i: int, j: int|
            0 <= i < resolved(rows, keep, settle).len() && 0 <= j < resolved(
                rows,
                keep,
                settle,
            ).len() && i != j ==> (#[trigger] resolved(rows, keep, settle)[i]).id != (
            #[trigger] resolved(rows, keep, settle)[j]).id,
        forall|i: int|
            0 <= i < resolved(rows, keep, settle).len() ==> settled_from(
                rows,
                keep,
                settle,
                #[trigger] resolved(rows, keep, settle)[i],
            ),
        forall|k: int|
            0 <= k < rows.len() && keep(#[trigger] rows[k]) ==> resolved(
                rows,
                keep,
                settle,
            ).contains(settle(rows[k])),
    decreases rows.len(),
{
    if rows.len() == 0 {
        assert(rows.filter(keep) =~= Seq::<RowView>::empty()) by {
            reveal(Seq::filter);
        }
    } else {
        let front = rows.drop_last();
        let last = rows.last();
        assert(rows =~= front.push(last));
        lemma_resolved_wf(front, keep, settle);
        lemma_resolved_push(front, last, keep, settle);
        let before = resolved(front, keep, settle);
        let after = resolved(rows, keep, settle);
        assert forall|i: int| 0 <= i < after.len() implies settled_from(
            rows,
            keep,
            settle,
            #[trigger] after[i],
        ) by {
            if i < before.len() {
                assert(settled_from(front, keep, settle, before[i]));
                let k = choose|k: int|
                    0 <= k < front.len() && keep(#[trigger] front[k]) && settle(front[k])
                        == before[i];
                assert(keep(rows[k]) && settle(rows[k]) == after[i]);
            } else {
                assert(keep(rows[rows.len() - 1]) && settle(rows[rows.len() - 1]) == after[i]);
            }
        }
        assert forall|i: int| 0 <= i < after.len() implies (#[trigger] after[i]).wf() by {
            if i < before.len() {
                assert(before[i].wf());
            } else {
                assert(last.wf());
                assert(after[i] == settle(last));
            }
        }
        assert forall|k: int| 0 <= k < rows.len() && keep(#[trigger] rows[k]) implies after.contains(
            settle(rows[k]),
        ) by {
            if k < front.len() {
                assert(keep(front[k]));
                assert(before.contains(settle(front[k])));
                let i = choose|i: int| 0 <= i < before.len() && before[i] == settle(front[k]);
                assert(after[i] == settle(rows[k]));
            } else {
                assert(after[after.len() - 1] == settle(rows[k]));
            }
        }
        assert forall|i: int, j: int|
            0 <= i < after.len() && 0 <= j < after.len() && i != j implies (#[trigger] after[i]).id
            != (#[trigger] after[j]).id by {
            if i < before.len() && j < before.len() {
                assert(before[i].id != before[j].id);
            } else if i < before.len() {
                assert(settled_from(front, keep, settle, before[i]));
                let k = choose|k: int|
                    0 <= k < front.len() && keep(#[trigger] front[k]) && settle(front[k])
                        == before[i];
                assert(rows[k].id != rows[rows.len() - 1].id);
            } else {
                assert(settled_from(front, keep, settle, before[j]));
                let k = choose|k: int|
                    0 <= k < front.len() && keep(#[trigger] front[k]) && settle(front[k])
                        == before[j];
                assert(rows[k].id != rows[rows.len() - 1].id);
            }
        }
    }
}

/// Commit and rollback keep the store well formed.
pub proof fn lemma_resolution_wf(queue: QueueView, tx: u64)
    requires
        queue.wf(),
    ensures
        queue.after_commit(tx).wf(),
        queue.after_rollback(tx).wf(),
{
    lemma_resolved_wf(
        queue.rows,
        |row: RowView| row.survives_commit(tx),
        |row: RowView| row.committed(tx),
    );
    lemma_resolved_wf(
        queue.rows,
        |row: RowView| row.survives_rollback(tx),
        |row: RowView| row.rolled_back(tx),
    );
}

impl DeliveryQueue {
    /// Commits transaction `tx`: the rows it deleted are gone, what it wrote
    /// to the others is their content, its insertions are there for everyone,
    /// and every lock it held is released.
    pub fn commit(&mut self, tx: u64)
        requires
            old(self).wf(),
        ensures
            final(self).wf(),
            final(self)@ == old(self)@.after_commit(tx),
    {
        let mut pending: Vec<Row> = Vec::new();
        core::mem::swap(&mut self.rows, &mut pending);
        let ghost before = old(self)@.rows;
        let ghost keep = |row: RowView| row.survives_commit(tx);
        let ghost settle = |row: RowView| row.committed(tx);
        assert(before.take(0) =~= Seq::<RowView>::empty());
        assert(Seq::<RowView>::empty().filter(keep) =~= Seq::<RowView>::empty()) by {
            reveal(Seq::filter);
        }
        for row in it: pending
            invariant
                before == it.seq().map_values(|row: Row| row@),
                self.rows@.map_values(|row: Row| row@) == resolved(
                    before.take(it.index() as int),
                    keep,
                    settle,
                ),
                self.subscribers == old(self).subscribers,
                keep == |row: RowView| row.survives_commit(tx),
                settle == |row: RowView| row.committed(tx),
        {
            let mut row = row;
            let held = match row.lock {
                Some(owner) => owner == tx,
                None => false,
            };
            proof {
                let k = it.index() as int;
                assert(before.take(k + 1) =~= before.take(k).push(before[k]));
                lemma_resolved_push(before.take(k), before[k], keep, settle);
            }
            if held {
                if !row.deleted {
                    match row.staged {
                        Some(staged) => {
                            row.n_retries = staged.n_retries;
                            row.send_after = staged.send_after;
                        },
                        None => {},
                    }
                    row.lock = None;
                    row.fresh = false;
                    row.staged = None;
                    let ghost settled = row@;
                    self.rows.push(row);
                    assert(self.rows@.map_values(|row: Row| row@) =~= resolved(
                        before.take(it.index() as int),
                        keep,
                        settle,
                    ).push(settled));
                }
            } else {
                let ghost settled = row@;
                self.rows.push(row);
                assert(self.rows@.map_values(|row: Row| row@) =~= resolved(
                    before.take(it.index() as int),
                    keep,
                    settle,
                ).push(settled));
            }
        }
        proof {
            assert(before.take(before.len() as int) =~= before);
            lemma_resolution_wf(old(self)@, tx);
            assert(self@.subscribers =~= old(self)@.subscribers);
        }
    }

    /// Rolls transaction `tx` back, as a crash of its owner does: the rows it
    /// inserted are gone, what it wrote to the others is forgotten, and every
    /// lock it held is released.
    pub fn rollback(&mut self, tx: u64)
        requires
            old(self).wf(),
        ensures
            final(self).wf(),
            final(self)@ == old(self)@.after_rollback(tx),
    {
        let mut pending: Vec<Row> = Vec::new();
        core::mem::swap(&mut self.rows, &mut pending);
        let ghost before = old(self)@.rows;
        let ghost keep = |row: RowView| row.survives_rollback(tx);
        let ghost settle = |row: RowView| row.rolled_back(tx);
        assert(before.take(0) =~= Seq::<RowView>::empty());
        assert(Seq::<RowView>::empty().filter(keep) =~= Seq::<RowView>::empty()) by {
            reveal(Seq::filter);
        }
        for row in it: pending
            invariant
                before == it.seq().map_values(|row: Row| row@),
                self.rows@.map_values(|row: Row| row@) == resolved(
                    before.take(it.index() as int),
                    keep,
                    settle,
                ),
                self.subscribers == old(self).subscribers,
                keep == |row: RowView| row.survives_rollback(tx),
                settle == |row: RowView| row.rolled_back(tx),
        {
            let mut row = row;
            let held = match row.lock {
                Some(owner) => owner == tx,
                None => false,
            };
            proof {
                let k = it.index() as int;
                assert(before.take(k + 1) =~= before.take(k).push(before[k]));
                lemma_resolved_push(before.take(k), before[k], keep, settle);
            }
            if held {
                if !row.fresh {
                    row.lock = None;
                    row.deleted = false;
                    row.staged = None;
                    let ghost settled = row@;
                    self.rows.push(row);
                    assert(self.rows@.map_values(|row: Row| row@) =~= resolved(
                        before.take(it.index() as int),
                        keep,
                        settle,
                    ).push(settled));
                }
            } else {
                let ghost settled = row@;
                self.rows.push(row);
                assert(self.rows@.map_values(|row: Row| row@) =~= resolved(
                    before.take(it.index() as int),
                    keep,
                    settle,
                ).push(settled));
            }
        }
        proof {
            assert(before.take(before.len() as int) =~= before);
            lemma_resolution_wf(old(self)@, tx);
            assert(self@.subscribers =~= old(self)@.subscribers);
        }
    }

    /// The committed retry counter and eligibility instant of the task with
    /// `id`, or nothing when no committed row carries that id.
    pub fn lookup(&self, id: u128) -> (state: Option<RetryState>)
        requires
            self.wf(),
        ensures
            state == match self@.committed_row(id) {
                Some(row) => Some(
                    RetryState { n_retries: row.n_retries, send_after: row.send_after },
                ),
                None => None,
            },
    {
        match self.find(id) {
            Some(i) => {
                let row = &self.rows[i];
                proof {
                    assert(self@.rows[i as int] == row@);
                }
                if row.fresh {
                    None
                } else {
                    Some(RetryState { n_retries: row.n_retries, send_after: row.send_after })
                }
            },
            None => None,
        }
    }

    /// The transaction that holds the row with `id`, if any does.
    pub fn holder(&self, id: u128) -> (lock: Option<u64>)
        requires
            self.wf(),
        ensures
            lock == if self@.has_id(id) {
                self@.rows[self@.position(id)].lock
            } else {
                None
            },
    {
        match self.find(id) {
            Some(i) => {
                let row = &self.rows[i];
                proof {
                    assert(self@.rows[i as int] == row@);
                }
                row.lock
            },
            None => None,
        }
    }
}

/// A fresh random task id (`uuid::Uuid::new_v4`, read as a 128-bit number).
/// Nothing is promised of its value.
#[verifier::external_body]
fn fresh_task_id() -> u128 {
    uuid::Uuid::new_v4().as_u128()
}

/// Enqueues a task for `subscriber_id` on behalf of `tx` under a fresh random
/// id, which is returned: never retried, created at `now` and eligible at
/// once. The row becomes visible to other transactions when `tx` commits. If
/// the id drawn is taken already, nothing is stored and the failure is
/// reported; on a store without rows no id is taken, so the task is stored.
pub fn push_task(
    queue: &mut DeliveryQueue,
    tx: u64,
    subscriber_id: u128,
    subject: &str,
    html_content: &str,
    text_content: &str,
    now: i64,
) -> (pushed: Result<u128, StoreError>)
    requires
        old(queue).wf(),
    ensures
        final(queue).wf(),
        old(queue)@.rows.len() == 0 ==> pushed is Ok,
        match pushed {
            Ok(id) => !old(queue)@.has_id(id) && final(queue)@ == old(queue)@.after_insert(
                fresh_row(tx, id, subscriber_id, subject@, html_content@, text_content@, now),
            ),
            Err(e) => e is DuplicateId && final(queue)@ == old(queue)@,
        },
{
    let id: u128 = fresh_task_id();
    match insert_task(queue, tx, id, subscriber_id, subject, html_content, text_content, now) {
        Ok(()) => Ok(id),
        Err(e) => Err(e),
    }
}

} // verus!
