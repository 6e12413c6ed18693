//! What the task store and the worker guarantee, whatever is done with them:
//! a crash never strands a task, concurrent claimers never share one, deleting
//! twice is harmless, a deferred task stays out of sight until its time, and
//! every attempt of the worker leaves its task either gone or deferred.

use crate::backoff::{next_eligible_at, retry_delay};
use crate::domain::address_parses;
use crate::email_delivery_queue::{
    fresh_row, lemma_resolution_wf, lemma_resolved_push, lemma_resolved_wf, resolved,
    settled_from, QueueView, RowView, TaskView,
};
use crate::email_delivery_worker::worker::{
    attempt_defers, attempt_outcome, attempt_store, pace_for, Outcome, IDLE_PAUSE_SECS,
};
use vstd::prelude::*;

verus! {

/// In a well-formed store the row that carries an id is the only one.
pub proof fn lemma_position_unique(queue: QueueView, i: int, id: u128)
    requires
        queue.wf(),
        0 <= i < queue.rows.len(),
        queue.rows[i].id == id,
    ensures
        queue.has_id(id),
        queue.position(id) == i,
{
    let k = queue.position(id);
    assert(0 <= k < queue.rows.len() && queue.rows[k].id == id);
    if k != i {
        assert(queue.rows[k].id != queue.rows[i].id);
    }
}

/// Replacing a row by one that resolves alike does not change the resolved
/// table.
pub proof fn lemma_resolved_update(
    rows: Seq<RowView>,
    i: int,
    row: RowView,
    keep: spec_fn(RowView) -> bool,
    settle: spec_fn(RowView) -> RowView,
)
    requires
        0 <= i < rows.len(),
        keep(row) == keep(rows[i]),
        keep(row) ==> settle(row) == settle(rows[i]),
    ensures
        resolved(rows.update(i, row), keep, settle) == resolved(rows, keep, settle),
    decreases rows.len(),
{
    let front = rows.drop_last();
    let last = rows.last();
    assert(rows =~= front.push(last));
    lemma_resolved_push(front, last, keep, settle);
    if i == rows.len() - 1 {
        assert(rows.update(i, row) =~= front.push(row));
        lemma_resolved_push(front, row, keep, settle);
    } else {
        assert(rows.update(i, row) =~= front.update(i, row).push(last));
        lemma_resolved_update(front, i, row, keep, settle);
        lemma_resolved_push(front.update(i, row), last, keep, settle);
    }
}

/// Resolving changes nothing when every row is kept and settles to itself.
pub proof fn lemma_resolved_identity(
    rows: Seq<RowView>,
    keep: spec_fn(RowView) -> bool,
    settle: spec_fn(RowView) -> RowView,
)
    requires
        forall|i: int| 0 <= i < rows.len() ==> keep(#[trigger] rows[i]) && settle(rows[i]) == rows[i],
    ensures
        resolved(rows, keep, settle) == rows,
    decreases rows.len(),
{
    if rows.len() == 0 {
        assert(rows.filter(keep) =~= Seq::<RowView>::empty()) by {
            reveal(Seq::filter);
        }
        assert(resolved(rows, keep, settle) =~= rows);
    } else {
        let front = rows.drop_last();
        let last = rows.last();
        assert(rows =~= front.push(last));
        assert forall|i: int| 0 <= i < front.len() implies keep(#[trigger] front[i]) && settle(
            front[i],
        ) == front[i] by {
            assert(front[i] == rows[i]);
        }
        lemma_resolved_identity(front, keep, settle);
        lemma_resolved_push(front, last, keep, settle);
        assert(keep(rows[rows.len() - 1]));
    }
}

/// A transaction that holds nothing has nothing to resolve: committing it or
/// rolling it back leaves the store as it is.
pub proof fn lemma_untouched_resolves_to_itself(queue: QueueView, tx: u64)
    requires
        queue.wf(),
        queue.untouched_by(tx),
    ensures
        queue.after_commit(tx) == queue,
        queue.after_rollback(tx) == queue,
{
    assert forall|i: int| 0 <= i < queue.rows.len() implies (#[trigger] queue.rows[i]).survives_commit(
        tx,
    ) && queue.rows[i].committed(tx) == queue.rows[i] && queue.rows[i].survives_rollback(tx)
        && queue.rows[i].rolled_back(tx) == queue.rows[i] by {
        assert(!queue.rows[i].held_by(tx));
    }
    lemma_resolved_identity(
        queue.rows,
        |row: RowView| row.survives_commit(tx),
        |row: RowView| row.committed(tx),
    );
    lemma_resolved_identity(
        queue.rows,
        |row: RowView| row.survives_rollback(tx),
        |row: RowView| row.rolled_back(tx),
    );
}

/// No lock outlives its transaction: once a transaction has committed or
/// rolled back it holds no row, so no task stays locked for good.
pub proof fn lemma_resolution_releases(queue: QueueView, tx: u64)
    requires
        queue.wf(),
    ensures
        queue.after_commit(tx).untouched_by(tx),
        queue.after_rollback(tx).untouched_by(tx),
{
    let keep_c = |row: RowView| row.survives_commit(tx);
    let settle_c = |row: RowView| row.committed(tx);
    let keep_r = |row: RowView| row.survives_rollback(tx);
    let settle_r = |row: RowView| row.rolled_back(tx);
    lemma_resolved_wf(queue.rows, keep_c, settle_c);
    lemma_resolved_wf(queue.rows, keep_r, settle_r);
    let committed = queue.after_commit(tx);
    assert forall|i: int| 0 <= i < committed.rows.len() implies !(#[trigger] committed.rows[i]).held_by(
        tx,
    ) by {
        assert(settled_from(queue.rows, keep_c, settle_c, committed.rows[i]));
    }
    let rolled = queue.after_rollback(tx);
    assert forall|i: int| 0 <= i < rolled.rows.len() implies !(#[trigger] rolled.rows[i]).held_by(
        tx,
    ) by {
        assert(settled_from(queue.rows, keep_r, settle_r, rolled.rows[i]));
    }
}

/// Nothing a transaction does before it commits survives its rollback:
/// whether it has claimed, deleted, deferred or inserted, rolling it back
/// gives the store that rolling it back at once would have given.
pub proof fn lemma_statements_roll_back(
    queue: QueueView,
    tx: u64,
    now: i64,
    id: u128,
    n_retries: u32,
    inserted: RowView,
)
    requires
        queue.wf(),
        inserted.held_by(tx),
        inserted.fresh,
    ensures
        queue.after_claim(tx, now).after_rollback(tx) == queue.after_rollback(tx),
        queue.after_pop(tx, id).after_rollback(tx) == queue.after_rollback(tx),
        queue.after_defer(tx, id, n_retries, now).after_rollback(tx) == queue.after_rollback(tx),
        queue.after_insert(inserted).after_rollback(tx) == queue.after_rollback(tx),
{
    let keep = |row: RowView| row.survives_rollback(tx);
    let settle = |row: RowView| row.rolled_back(tx);
    if queue.has_claimable(tx, now) {
        let i = queue.first_claimable(tx, now);
        assert(queue.is_first_claimable(i, tx, now));
        assert(queue.rows[i].wf());
        lemma_resolved_update(queue.rows, i, queue.rows[i].locked_by(tx), keep, settle);
    }
    if queue.targets(tx, id) && !queue.conflicts(tx, id) {
        let i = queue.position(id);
        assert(queue.rows[i].wf());
        lemma_resolved_update(queue.rows, i, queue.rows[i].deleted_by(tx), keep, settle);
        if !queue.defer_out_of_range(tx, id, n_retries, now) {
            let row = queue.rows[i];
            lemma_resolved_update(
                queue.rows,
                i,
                row.deferred_by(
                    tx,
                    (row.retries_for(tx) + 1) as u32,
                    next_eligible_at(now as int, n_retries as nat) as i64,
                ),
                keep,
                settle,
            );
        }
    }
    if !queue.has_id(inserted.id) {
        lemma_resolved_push(queue.rows, inserted, keep, settle);
    }
}

/// At least once: a worker that crashes between claiming a task and
/// resolving it, whatever it had done to the task by then, leaves the store
/// exactly as it found it. The task is claimable again on the same terms, and
/// nothing stays locked.
pub proof fn lemma_crash_after_claim_restores(
    queue: QueueView,
    tx: u64,
    now: i64,
    id: u128,
    n_retries: u32,
)
    requires
        queue.wf(),
        queue.untouched_by(tx),
    ensures
        queue.after_claim(tx, now).after_rollback(tx) == queue,
        queue.after_claim(tx, now).after_pop(tx, id).after_rollback(tx) == queue,
        queue.after_claim(tx, now).after_defer(tx, id, n_retries, now).after_rollback(tx)
            == queue,
{
    let some_row = fresh_row(tx, id, 0, Seq::empty(), Seq::empty(), Seq::empty(), now);
    lemma_untouched_resolves_to_itself(queue, tx);
    lemma_statements_roll_back(queue, tx, now, id, n_retries, some_row);
    lemma_claim_keeps_wf(queue, tx, now);
    lemma_statements_roll_back(queue.after_claim(tx, now), tx, now, id, n_retries, some_row);
}

/// A claim keeps the store well formed, and when it returns a task, the row
/// of that task is held by the claimer afterwards.
pub proof fn lemma_claim_keeps_wf(queue: QueueView, tx: u64, now: i64)
    requires
        queue.wf(),
    ensures
        queue.after_claim(tx, now).wf(),
        queue.claim_result(tx, now) matches Some(task) ==> queue.after_claim(tx, now).has_id(
            task.id,
        ) && queue.after_claim(tx, now).rows[queue.after_claim(tx, now).position(task.id)].held_by(
            tx,
        ),
{
    if queue.has_claimable(tx, now) {
        let i = queue.first_claimable(tx, now);
        assert(queue.is_first_claimable(i, tx, now));
        let after = queue.after_claim(tx, now);
        assert(queue.rows[i].wf());
        assert forall|a: int, b: int|
            0 <= a < after.rows.len() && 0 <= b < after.rows.len() && a != b implies (
        #[trigger] after.rows[a]).id != (#[trigger] after.rows[b]).id by {
            assert(queue.rows[a].id != queue.rows[b].id);
        }
        assert forall|a: int| 0 <= a < after.rows.len() implies (#[trigger] after.rows[a]).wf() by {
            assert(queue.rows[a].wf());
        }
        lemma_position_unique(after, i, queue.rows[i].id);
    }
}

/// No double claim: while one transaction holds a task it has claimed, a
/// claim by any other transaction, at any time, returns a different task or
/// none.
pub proof fn lemma_claims_are_exclusive(
    queue: QueueView,
    first: u64,
    second: u64,
    now_first: i64,
    now_second: i64,
)
    requires
        queue.wf(),
        first != second,
    ensures
        queue.claim_result(first, now_first) matches Some(mine) ==> (queue.after_claim(
            first,
            now_first,
        ).claim_result(second, now_second) matches Some(theirs) ==> mine.id != theirs.id),
{
    if queue.has_claimable(first, now_first) {
        let i = queue.first_claimable(first, now_first);
        assert(queue.is_first_claimable(i, first, now_first));
        let after = queue.after_claim(first, now_first);
        lemma_claim_keeps_wf(queue, first, now_first);
        if after.has_claimable(second, now_second) {
            let k = after.first_claimable(second, now_second);
            assert(after.is_first_claimable(k, second, now_second));
            assert(after.rows[i].blocked_for(second));
            assert(k != i);
            assert(after.rows[k].id != after.rows[i].id);
        }
    }
}

/// A row that one transaction holds is out of reach of every other: they
/// cannot claim it, and their attempts to delete or defer it change nothing.
pub proof fn lemma_held_row_is_out_of_reach(
    queue: QueueView,
    holder: u64,
    other: u64,
    id: u128,
    now: i64,
    n_retries: u32,
)
    requires
        queue.wf(),
        holder != other,
        queue.has_id(id),
        queue.rows[queue.position(id)].held_by(holder),
    ensures
        queue.claim_result(other, now) matches Some(task) ==> task.id != id,
        queue.after_pop(other, id) == queue,
        queue.after_defer(other, id, n_retries, now) == queue,
        queue.after_claim(other, now).rows[queue.position(id)] == queue.rows[queue.position(id)],
{
    let p = queue.position(id);
    assert(queue.rows[p].blocked_for(other));
    if queue.has_claimable(other, now) {
        let k = queue.first_claimable(other, now);
        assert(queue.is_first_claimable(k, other, now));
        assert(k != p);
        assert(queue.rows[k].id != queue.rows[p].id);
    }
}

/// Idempotent completion: deleting a task that is not there for the
/// transaction (never stored, or deleted already) is not an error and changes
/// nothing; a transaction that has deleted a task no longer finds it; and
/// once the deletion is committed the task is gone for everyone, so that
/// every later deletion, by anyone, is of the first kind.
pub proof fn lemma_completion_is_idempotent(queue: QueueView, tx: u64, later: u64, id: u128)
    requires
        queue.wf(),
    ensures
        !queue.targets(tx, id) ==> !queue.conflicts(tx, id) && queue.after_pop(tx, id) == queue,
        !queue.conflicts(tx, id) ==> !queue.after_pop(tx, id).targets(tx, id),
        queue.targets(tx, id) && !queue.conflicts(tx, id) ==> ({
            let gone = queue.after_pop(tx, id).after_commit(tx);
            &&& !gone.has_id(id)
            &&& !gone.conflicts(later, id)
            &&& gone.after_pop(later, id) == gone
        }),
{
    if !queue.conflicts(tx, id) {
        let popped = queue.after_pop(tx, id);
        lemma_pop_keeps_wf(queue, tx, id);
        if queue.has_id(id) {
            lemma_position_unique(popped, queue.position(id), id);
        }
        if queue.targets(tx, id) {
            let keep = |row: RowView| row.survives_commit(tx);
            let settle = |row: RowView| row.committed(tx);
            lemma_resolved_wf(popped.rows, keep, settle);
            let gone = popped.after_commit(tx);
            if gone.has_id(id) {
                let k = gone.position(id);
                assert(0 <= k < gone.rows.len() && gone.rows[k].id == id);
                assert(settled_from(popped.rows, keep, settle, gone.rows[k]));
                let source = choose|s: int|
                    0 <= s < popped.rows.len() && keep(#[trigger] popped.rows[s]) && settle(
                        popped.rows[s],
                    ) == gone.rows[k];
                lemma_position_unique(popped, source, id);
                assert(false);
            }
        }
    }
}

/// A deletion keeps the store well formed.
pub proof fn lemma_pop_keeps_wf(queue: QueueView, tx: u64, id: u128)
    requires
        queue.wf(),
    ensures
        queue.after_pop(tx, id).wf(),
{
    let after = queue.after_pop(tx, id);
    assert forall|a: int, b: int|
        0 <= a < after.rows.len() && 0 <= b < after.rows.len() && a != b implies (
    #[trigger] after.rows[a]).id != (#[trigger] after.rows[b]).id by {
        assert(queue.rows[a].id != queue.rows[b].id);
    }
    assert forall|a: int| 0 <= a < after.rows.len() implies (#[trigger] after.rows[a]).wf() by {
        assert(queue.rows[a].wf());
    }
}

/// A deferral keeps the store well formed.
pub proof fn lemma_defer_keeps_wf(queue: QueueView, tx: u64, id: u128, n_retries: u32, now: i64)
    requires
        queue.wf(),
    ensures
        queue.after_defer(tx, id, n_retries, now).wf(),
{
    let after = queue.after_defer(tx, id, n_retries, now);
    assert forall|a: int, b: int|
        0 <= a < after.rows.len() && 0 <= b < after.rows.len() && a != b implies (
    #[trigger] after.rows[a]).id != (#[trigger] after.rows[b]).id by {
        assert(queue.rows[a].id != queue.rows[b].id);
    }
    assert forall|a: int| 0 <= a < after.rows.len() implies (#[trigger] after.rows[a]).wf() by {
        assert(queue.rows[a].wf());
    }
}

/// Visibility gating at the claim: a claim at `now` never returns a task
/// whose eligibility instant, as the claimer reads it, lies after `now`.
pub proof fn lemma_claim_respects_eligibility(queue: QueueView, tx: u64, now: i64)
    requires
        queue.wf(),
    ensures
        queue.claim_result(tx, now) matches Some(task) ==> task.send_after <= now,
{
    if queue.has_claimable(tx, now) {
        let i = queue.first_claimable(tx, now);
        assert(queue.is_first_claimable(i, tx, now));
    }
}

/// Visibility gating after a deferral: once a task has been deferred at
/// `now` after `n_retries` earlier failures and the deferral is committed, no
/// claim made before `now` plus the retry delay returns it, whoever claims.
/// The retry counter it is stored with has grown by exactly one.
pub proof fn lemma_deferred_task_stays_hidden(
    queue: QueueView,
    tx: u64,
    id: u128,
    n_retries: u32,
    now: i64,
    claimer: u64,
    claim_at: i64,
)
    requires
        queue.wf(),
        queue.targets(tx, id),
        !queue.conflicts(tx, id),
        !queue.defer_out_of_range(tx, id, n_retries, now),
        claim_at < next_eligible_at(now as int, n_retries as nat),
    ensures
        ({
            let settled = queue.after_defer(tx, id, n_retries, now).after_commit(tx);
            &&& settled.has_id(id)
            &&& settled.rows[settled.position(id)].lock is None
            &&& settled.rows[settled.position(id)].send_after == next_eligible_at(
                now as int,
                n_retries as nat,
            )
            &&& settled.rows[settled.position(id)].n_retries == queue.rows[queue.position(
                id,
            )].retries_for(tx) + 1
            &&& (settled.claim_result(claimer, claim_at) matches Some(task) ==> task.id != id)
        }),
{
    let deferred = queue.after_defer(tx, id, n_retries, now);
    let i = queue.position(id);
    lemma_defer_keeps_wf(queue, tx, id, n_retries, now);
    lemma_position_unique(deferred, i, id);
    let keep = |row: RowView| row.survives_commit(tx);
    let settle = |row: RowView| row.committed(tx);
    lemma_resolved_wf(deferred.rows, keep, settle);
    let settled = deferred.after_commit(tx);
    assert(queue.rows[i].wf());
    assert(keep(deferred.rows[i]));
    assert(settled.rows.contains(settle(deferred.rows[i])));
    let k = choose|k: int| 0 <= k < settled.rows.len() && settled.rows[k] == settle(deferred.rows[i]);
    assert(settled.rows[k].id == id);
    lemma_position_unique(settled, k, id);
    if settled.has_claimable(claimer, claim_at) {
        let c = settled.first_claimable(claimer, claim_at);
        assert(settled.is_first_claimable(c, claimer, claim_at));
        if settled.rows[c].id == id {
            lemma_position_unique(settled, c, id);
        }
    }
}


/// A claim hands out a row that its claimer then holds and still sees, and
/// reads it as the claimer does.
pub proof fn lemma_claimed_row_is_held(queue: QueueView, tx: u64, now: i64)
    requires
        queue.wf(),
        queue.has_claimable(tx, now),
    ensures
        ({
            let task = queue.claim_result(tx, now)->0;
            let claimed = queue.after_claim(tx, now);
            &&& claimed.wf()
            &&& claimed.targets(tx, task.id)
            &&& !claimed.conflicts(tx, task.id)
            &&& claimed.rows[claimed.position(task.id)].retries_for(tx) == task.n_retries
            &&& task.send_after <= now
        }),
{
    let i = queue.first_claimable(tx, now);
    assert(queue.is_first_claimable(i, tx, now));
    assert(queue.rows[i].wf());
    lemma_claim_keeps_wf(queue, tx, now);
    lemma_position_unique(queue.after_claim(tx, now), i, queue.rows[i].id);
}

/// After any attempt the worker's transaction holds nothing: whatever
/// happened, no task is left locked.
pub proof fn lemma_attempt_releases(queue: QueueView, tx: u64, now: i64, sent: bool)
    requires
        queue.wf(),
    ensures
        attempt_store(queue, tx, now, sent).wf(),
        attempt_store(queue, tx, now, sent).untouched_by(tx),
{
    let claimed = queue.after_claim(tx, now);
    lemma_claim_keeps_wf(queue, tx, now);
    lemma_resolution_releases(claimed, tx);
    lemma_resolution_wf(claimed, tx);
    if queue.claim_result(tx, now) is Some {
        let task = queue.claim_result(tx, now)->0;
        lemma_pop_keeps_wf(claimed, tx, task.id);
        lemma_defer_keeps_wf(claimed, tx, task.id, task.n_retries, now);
        lemma_resolution_releases(claimed.after_pop(tx, task.id), tx);
        lemma_resolution_releases(claimed.after_defer(tx, task.id, task.n_retries, now), tx);
        lemma_resolution_wf(claimed.after_pop(tx, task.id), tx);
        lemma_resolution_wf(
            claimed.after_defer(tx, task.id, task.n_retries, now),
            tx,
        );
    }
}

/// An attempt that finds nothing to claim ends as such, is followed by the
/// idle pause, and leaves the store of a worker that held nothing as it was.
pub proof fn lemma_idle_attempt_changes_nothing(queue: QueueView, tx: u64, now: i64, sent: bool)
    requires
        queue.wf(),
        queue.untouched_by(tx),
        !queue.has_claimable(tx, now),
    ensures
        attempt_outcome(queue, tx, now, sent) == Outcome::NoPendingTask,
        pace_for(attempt_outcome(queue, tx, now, sent)).pause_secs == IDLE_PAUSE_SECS,
        attempt_store(queue, tx, now, sent) == queue,
{
    lemma_untouched_resolves_to_itself(queue, tx);
}

/// An attempt whose message goes out deletes its task: the attempt ends as a
/// delivery and the task is gone from the store.
pub proof fn lemma_delivered_task_is_gone(queue: QueueView, tx: u64, now: i64)
    requires
        queue.wf(),
        queue.has_claimable(tx, now),
        address_parses(queue.claim_result(tx, now)->0.email),
    ensures
        attempt_outcome(queue, tx, now, true) == Outcome::Delivered,
        !attempt_store(queue, tx, now, true).has_id(queue.claim_result(tx, now)->0.id),
{
    let task = queue.claim_result(tx, now)->0;
    lemma_claimed_row_is_held(queue, tx, now);
    lemma_completion_is_idempotent(queue.after_claim(tx, now), tx, tx, task.id);
}

/// An attempt that cannot deliver defers its task: whether the recipient is
/// no address or the mail client fails, the task stays in the store,
/// unlocked, with one retry more than the worker read and eligible again
/// exactly the retry delay after `now`; and until then no claim returns it.
pub proof fn lemma_undelivered_task_is_deferred(
    queue: QueueView,
    tx: u64,
    now: i64,
    sent: bool,
    claimer: u64,
    claim_at: i64,
)
    requires
        queue.wf(),
        queue.has_claimable(tx, now),
        attempt_defers(queue, tx, now, sent),
        !queue.after_claim(tx, now).defer_out_of_range(
            tx,
            queue.claim_result(tx, now)->0.id,
            queue.claim_result(tx, now)->0.n_retries,
            now,
        ),
        claim_at < next_eligible_at(now as int, queue.claim_result(tx, now)->0.n_retries as nat),
    ensures
        ({
            let task = queue.claim_result(tx, now)->0;
            let after = attempt_store(queue, tx, now, sent);
            &&& attempt_outcome(queue, tx, now, sent) == if address_parses(task.email) {
                Outcome::EmailClientError
            } else {
                Outcome::CorruptedData
            }
            &&& after.has_id(task.id)
            &&& after.rows[after.position(task.id)].lock is None
            &&& after.rows[after.position(task.id)].n_retries == task.n_retries + 1
            &&& after.rows[after.position(task.id)].send_after == now + retry_delay(
                task.n_retries as nat,
            )
            &&& (after.claim_result(claimer, claim_at) matches Some(other) ==> other.id != task.id)
        }),
{
    let task = queue.claim_result(tx, now)->0;
    lemma_claimed_row_is_held(queue, tx, now);
    lemma_deferred_task_stays_hidden(
        queue.after_claim(tx, now),
        tx,
        task.id,
        task.n_retries,
        now,
        claimer,
        claim_at,
    );
}


/// An insertion keeps the store well formed: a row whose id is taken is not
/// stored, so no id ever occurs twice.
pub proof fn lemma_insert_keeps_wf(queue: QueueView, row: RowView)
    requires
        queue.wf(),
        row.wf(),
    ensures
        queue.after_insert(row).wf(),
{
    let after = queue.after_insert(row);
    if !queue.has_id(row.id) {
        assert forall|a: int, b: int|
            0 <= a < after.rows.len() && 0 <= b < after.rows.len() && a != b implies (
        #[trigger] after.rows[a]).id != (#[trigger] after.rows[b]).id by {
            if a < queue.rows.len() && b < queue.rows.len() {
                assert(queue.rows[a].id != queue.rows[b].id);
            } else if a < queue.rows.len() {
                assert(queue.rows[a].id == after.rows[a].id);
            } else {
                assert(queue.rows[b].id == after.rows[b].id);
            }
        }
        assert forall|a: int| 0 <= a < after.rows.len() implies (#[trigger] after.rows[a]).wf() by {
            if a < queue.rows.len() {
                assert(queue.rows[a].wf());
            }
        }
    }
}

/// Whether the committed retry counter of the task with `id`, where the task
/// is committed in both stores, is in `after` at least what it is in `before`.
pub open spec fn retries_kept(before: QueueView, after: QueueView, id: u128) -> bool {
    before.committed_row(id) is Some && after.committed_row(id) is Some ==> after.committed_row(
        id,
    )->0.n_retries >= before.committed_row(id)->0.n_retries
}

/// The retry counter of a task never goes down: no statement and no end of
/// a transaction leaves a committed task with a smaller counter than it had.
pub proof fn lemma_retry_count_never_decreases(
    queue: QueueView,
    tx: u64,
    now: i64,
    id: u128,
    target: u128,
    n_retries: u32,
    inserted: RowView,
)
    requires
        queue.wf(),
    ensures
        retries_kept(queue, queue.after_claim(tx, now), id),
        retries_kept(queue, queue.after_pop(tx, target), id),
        retries_kept(queue, queue.after_defer(tx, target, n_retries, now), id),
        retries_kept(queue, queue.after_insert(inserted), id),
        retries_kept(queue, queue.after_commit(tx), id),
        retries_kept(queue, queue.after_rollback(tx), id),
{
    if queue.has_id(id) {
        let p = queue.position(id);
        assert(queue.rows[p].wf());
        lemma_claim_keeps_wf(queue, tx, now);
        lemma_pop_keeps_wf(queue, tx, target);
        lemma_defer_keeps_wf(queue, tx, target, n_retries, now);
        lemma_position_unique(queue.after_claim(tx, now), p, id);
        lemma_position_unique(queue.after_pop(tx, target), p, id);
        lemma_position_unique(queue.after_defer(tx, target, n_retries, now), p, id);
        if !queue.has_id(inserted.id) {
            let grown = queue.after_insert(inserted);
            assert(grown.rows[p] == queue.rows[p]);
            if grown.has_id(id) {
                let g = grown.position(id);
                assert(grown.rows[g].id == id);
                if g < queue.rows.len() {
                    assert(grown.rows[g] == queue.rows[g]);
                    lemma_position_unique(queue, g, id);
                } else {
                    assert(false);
                }
            }
        }
        lemma_settled_row_comes_from_its_id(
            queue,
            id,
            |row: RowView| row.survives_commit(tx),
            |row: RowView| row.committed(tx),
        );
        lemma_settled_row_comes_from_its_id(
            queue,
            id,
            |row: RowView| row.survives_rollback(tx),
            |row: RowView| row.rolled_back(tx),
        );
    }
}

/// After a resolution that keeps ids, the row that carries `id`, if one is
/// left, is the settled form of the row that carried it before.
pub proof fn lemma_settled_row_comes_from_its_id(
    queue: QueueView,
    id: u128,
    keep: spec_fn(RowView) -> bool,
    settle: spec_fn(RowView) -> RowView,
)
    requires
        queue.wf(),
        queue.has_id(id),
        forall|row: RowView|
            (#[trigger] settle(row)).id == row.id && (row.wf() ==> settle(row).wf()),
    ensures
        ({
            let after = QueueView { rows: resolved(queue.rows, keep, settle), ..queue };
            after.has_id(id) ==> after.rows[after.position(id)] == settle(
                queue.rows[queue.position(id)],
            )
        }),
{
    let after = QueueView { rows: resolved(queue.rows, keep, settle), ..queue };
    lemma_resolved_wf(queue.rows, keep, settle);
    if after.has_id(id) {
        let a = after.position(id);
        assert(0 <= a < after.rows.len() && after.rows[a].id == id);
        assert(settled_from(queue.rows, keep, settle, after.rows[a]));
        let k = choose|k: int|
            0 <= k < queue.rows.len() && keep(#[trigger] queue.rows[k]) && settle(queue.rows[k])
                == after.rows[a];
        lemma_position_unique(queue, k, id);
    }
}


/// Enqueued means stored once the transaction commits: a task enqueued under
/// a free id is, after the commit, in the store for everyone, unlocked, never
/// retried and eligible from the instant it was enqueued at.
pub proof fn lemma_committed_insert_is_stored(
    queue: QueueView,
    tx: u64,
    id: u128,
    subscriber_id: u128,
    subject: Seq<char>,
    email_html: Seq<char>,
    email_text: Seq<char>,
    now: i64,
)
    requires
        queue.wf(),
        !queue.has_id(id),
    ensures
        ({
            let row = fresh_row(tx, id, subscriber_id, subject, email_html, email_text, now);
            let stored = queue.after_insert(row).after_commit(tx);
            &&& stored.wf()
            &&& stored.committed_row(id) == Some(RowView { lock: None, fresh: false, ..row })
            &&& stored.rows[stored.position(id)].lock is None
        }),
{
    let row = fresh_row(tx, id, subscriber_id, subject, email_html, email_text, now);
    let grown = queue.after_insert(row);
    lemma_insert_keeps_wf(queue, row);
    lemma_resolution_wf(grown, tx);
    let keep = |row: RowView| row.survives_commit(tx);
    let settle = |row: RowView| row.committed(tx);
    lemma_resolved_wf(grown.rows, keep, settle);
    let stored = grown.after_commit(tx);
    let last = grown.rows.len() - 1;
    assert(grown.rows[last] == row);
    assert(keep(grown.rows[last]));
    assert(stored.rows.contains(settle(grown.rows[last])));
    let k = choose|k: int| 0 <= k < stored.rows.len() && stored.rows[k] == settle(grown.rows[last]);
    lemma_position_unique(stored, k, id);
}


/// The store once the transactions `txs` have each claimed, one after the
/// other, the i-th at the instant `nows[i]`, and none has resolved yet: the
/// store in the middle of attempts that overlap.
pub open spec fn store_after_claims(queue: QueueView, txs: Seq<u64>, nows: Seq<i64>) -> QueueView
    decreases txs.len(),
{
    if txs.len() == 0 {
        queue
    } else {
        store_after_claims(queue, txs.drop_last(), nows.drop_last()).after_claim(
            txs.last(),
            nows.last(),
        )
    }
}

/// What the claims of [`store_after_claims`] returned, in their order.
pub open spec fn claims_in_turn(queue: QueueView, txs: Seq<u64>, nows: Seq<i64>) -> Seq<
    Option<TaskView>,
>
    decreases txs.len(),
{
    if txs.len() == 0 {
        Seq::empty()
    } else {
        claims_in_turn(queue, txs.drop_last(), nows.drop_last()).push(
            store_after_claims(queue, txs.drop_last(), nows.drop_last()).claim_result(
                txs.last(),
                nows.last(),
            ),
        )
    }
}

/// Whether a newcomer could claim `row` at some instant up to `horizon`: no
/// transaction holds it, it is eligible by then, and its subscriber is on
/// record.
pub open spec fn open_until(row: RowView, horizon: i64, subscribers: Map<u128, Seq<char>>) -> bool {
    row.lock is None && row.send_after <= horizon && subscribers.contains_key(row.subscriber_id)
}

/// The number of rows that a newcomer could claim at some instant up to
/// `horizon`.
pub open spec fn open_rows(rows: Seq<RowView>, horizon: i64, subscribers: Map<u128, Seq<char>>) -> nat
    decreases rows.len(),
{
    if rows.len() == 0 {
        0
    } else {
        open_rows(rows.drop_last(), horizon, subscribers) + if open_until(
            rows.last(),
            horizon,
            subscribers,
        ) {
            1nat
        } else {
            0nat
        }
    }
}

/// The number of claims that returned a task.
pub open spec fn claimed_count(claimed: Seq<Option<TaskView>>) -> nat
    decreases claimed.len(),
{
    if claimed.len() == 0 {
        0
    } else {
        claimed_count(claimed.drop_last()) + if claimed.last() is Some {
            1nat
        } else {
            0nat
        }
    }
}

/// Locking a row that was open leaves one open row fewer.
pub proof fn lemma_open_rows_update(
    rows: Seq<RowView>,
    i: int,
    row: RowView,
    horizon: i64,
    subscribers: Map<u128, Seq<char>>,
)
    requires
        0 <= i < rows.len(),
        open_until(rows[i], horizon, subscribers),
        !open_until(row, horizon, subscribers),
    ensures
        open_rows(rows.update(i, row), horizon, subscribers) + 1 == open_rows(
            rows,
            horizon,
            subscribers,
        ),
    decreases rows.len(),
{
    let front = rows.drop_last();
    if i == rows.len() - 1 {
        assert(rows.update(i, row).drop_last() =~= front);
    } else {
        assert(rows.update(i, row).drop_last() =~= front.update(i, row));
        lemma_open_rows_update(front, i, row, horizon, subscribers);
    }
}

/// No more claims return a task than there are claims.
pub proof fn lemma_claimed_count_bounded(claimed: Seq<Option<TaskView>>)
    ensures
        claimed_count(claimed) <= claimed.len(),
    decreases claimed.len(),
{
    if claimed.len() > 0 {
        lemma_claimed_count_bounded(claimed.drop_last());
    }
}

/// Overlapping attempts, step by step: when transactions that hold nothing
/// claim one after the other and none resolves, the store stays well formed,
/// every task handed out stays locked for the transaction that claimed it,
/// transactions that have not claimed still hold nothing, and every task
/// handed out is one open row fewer.
pub proof fn lemma_claims_in_turn(queue: QueueView, txs: Seq<u64>, nows: Seq<i64>, horizon: i64)
    requires
        queue.wf(),
        txs.no_duplicates(),
        nows.len() == txs.len(),
        forall|i: int| 0 <= i < txs.len() ==> queue.untouched_by(#[trigger] txs[i]),
        forall|i: int| 0 <= i < nows.len() ==> #[trigger] nows[i] <= horizon,
    ensures
        ({
            let store = store_after_claims(queue, txs, nows);
            let claimed = claims_in_turn(queue, txs, nows);
            &&& store.wf()
            &&& store.subscribers == queue.subscribers
            &&& claimed.len() == txs.len()
            &&& forall|i: int|
                0 <= i < claimed.len() && (#[trigger] claimed[i]) is Some ==> store.has_id(
                    claimed[i]->0.id,
                ) && store.rows[store.position(claimed[i]->0.id)].held_by(txs[i])
            &&& forall|tx: u64|
                queue.untouched_by(tx) && !txs.contains(tx) ==> #[trigger] store.untouched_by(tx)
            &&& claimed_count(claimed) + open_rows(store.rows, horizon, store.subscribers)
                == open_rows(queue.rows, horizon, queue.subscribers)
        }),
    decreases txs.len(),
{
    if txs.len() > 0 {
        let earlier = txs.drop_last();
        let earlier_nows = nows.drop_last();
        let tx = txs.last();
        let now = nows.last();
        assert forall|i: int| 0 <= i < earlier.len() implies queue.untouched_by(
            #[trigger] earlier[i],
        ) by {
            assert(earlier[i] == txs[i]);
        }
        assert forall|i: int| 0 <= i < earlier_nows.len() implies #[trigger] earlier_nows[i]
            <= horizon by {
            assert(earlier_nows[i] == nows[i]);
        }
        assert(earlier.no_duplicates()) by {
            assert forall|i: int, j: int|
                0 <= i < earlier.len() && 0 <= j < earlier.len() && i != j implies earlier[i]
                != earlier[j] by {
                assert(txs[i] != txs[j]);
            }
        }
        lemma_claims_in_turn(queue, earlier, earlier_nows, horizon);
        let before = store_after_claims(queue, earlier, earlier_nows);
        let claimed_before = claims_in_turn(queue, earlier, earlier_nows);
        let store = store_after_claims(queue, txs, nows);
        let claimed = claims_in_turn(queue, txs, nows);
        assert(claimed.drop_last() =~= claimed_before);
        assert(!earlier.contains(tx)) by {
            if earlier.contains(tx) {
                let j = choose|j: int| 0 <= j < earlier.len() && earlier[j] == tx;
                assert(txs[j] == txs[txs.len() - 1]);
            }
        }
        assert(queue.untouched_by(txs[txs.len() - 1]));
        assert(before.untouched_by(tx));
        lemma_claim_keeps_wf(before, tx, now);
        if before.has_claimable(tx, now) {
            let k = before.first_claimable(tx, now);
            assert(before.is_first_claimable(k, tx, now));
            assert(!before.rows[k].held_by(tx));
            assert(before.rows[k].wf());
            assert(nows[nows.len() - 1] <= horizon);
            assert(open_until(before.rows[k], horizon, before.subscribers));
            lemma_open_rows_update(
                before.rows,
                k,
                before.rows[k].locked_by(tx),
                horizon,
                before.subscribers,
            );
            assert forall|i: int|
                0 <= i < claimed.len() && (#[trigger] claimed[i]) is Some implies store.has_id(
                claimed[i]->0.id,
            ) && store.rows[store.position(claimed[i]->0.id)].held_by(txs[i]) by {
                if i < claimed_before.len() {
                    assert(claimed[i] == claimed_before[i]);
                    let p = before.position(claimed[i]->0.id);
                    assert(before.rows[p].held_by(earlier[i]));
                    assert(earlier[i] == txs[i]);
                    assert(p != k);
                    lemma_position_unique(store, p, claimed[i]->0.id);
                }
            }
            assert forall|other: u64|
                queue.untouched_by(other) && !txs.contains(other) implies #[trigger] store.untouched_by(
                other,
            ) by {
                assert(!earlier.contains(other)) by {
                    if earlier.contains(other) {
                        let j = choose|j: int| 0 <= j < earlier.len() && earlier[j] == other;
                        assert(txs[j] == other);
                    }
                }
                assert(before.untouched_by(other));
                assert(txs[txs.len() - 1] != other);
                assert forall|r: int| 0 <= r < store.rows.len() implies !(
                #[trigger] store.rows[r]).held_by(other) by {
                    assert(!before.rows[r].held_by(other));
                }
            }
        } else {
            assert(store == before);
            assert forall|i: int|
                0 <= i < claimed.len() && (#[trigger] claimed[i]) is Some implies store.has_id(
                claimed[i]->0.id,
            ) && store.rows[store.position(claimed[i]->0.id)].held_by(txs[i]) by {
                assert(claimed[i] == claimed_before[i]);
                assert(earlier[i] == txs[i]);
            }
            assert forall|other: u64|
                queue.untouched_by(other) && !txs.contains(other) implies #[trigger] store.untouched_by(
                other,
            ) by {
                assert(!earlier.contains(other)) by {
                    if earlier.contains(other) {
                        let j = choose|j: int| 0 <= j < earlier.len() && earlier[j] == other;
                        assert(txs[j] == other);
                    }
                }
            }
        }
    }
}

/// No double send under concurrency: when any number of attempts overlap,
/// each in a transaction of its own that held nothing before, the tasks they
/// are handed are pairwise distinct, so no task goes to the mail client
/// twice; each stays locked for its claimer until that one resolves; and no
/// more attempts are handed a task than there are attempts or rows that were
/// open to a newcomer by the latest of their instants. Every other attempt
/// claims nothing, which ends it as `NoPendingTask`.
pub proof fn lemma_overlapping_attempts_share_no_task(
    queue: QueueView,
    txs: Seq<u64>,
    nows: Seq<i64>,
    horizon: i64,
)
    requires
        queue.wf(),
        txs.no_duplicates(),
        nows.len() == txs.len(),
        forall|i: int| 0 <= i < txs.len() ==> queue.untouched_by(#[trigger] txs[i]),
        forall|i: int| 0 <= i < nows.len() ==> #[trigger] nows[i] <= horizon,
    ensures
        ({
            let claimed = claims_in_turn(queue, txs, nows);
            &&& claimed.len() == txs.len()
            &&& forall|i: int, j: int|
                0 <= i < claimed.len() && 0 <= j < claimed.len() && i != j && (
                #[trigger] claimed[i]) is Some && (#[trigger] claimed[j]) is Some
                    ==> claimed[i]->0.id != claimed[j]->0.id
            &&& claimed_count(claimed) <= txs.len()
            &&& claimed_count(claimed) <= open_rows(queue.rows, horizon, queue.subscribers)
        }),
{
    lemma_claims_in_turn(queue, txs, nows, horizon);
    let claimed = claims_in_turn(queue, txs, nows);
    let store = store_after_claims(queue, txs, nows);
    lemma_claimed_count_bounded(claimed);
    assert forall|i: int, j: int|
        0 <= i < claimed.len() && 0 <= j < claimed.len() && i != j && (
        #[trigger] claimed[i]) is Some && (#[trigger] claimed[j]) is Some implies claimed[i]->0.id
        != claimed[j]->0.id by {
        if claimed[i]->0.id == claimed[j]->0.id {
            let p = store.position(claimed[i]->0.id);
            assert(store.rows[p].held_by(txs[i]));
            assert(store.rows[p].held_by(txs[j]));
            assert(txs[i] == txs[j]);
        }
    }
}


/// The end of one transaction leaves what another holds alone: after `tx`
/// commits or rolls back, a row that `holder` holds is there as it was, still
/// held by `holder`.
pub proof fn lemma_resolution_spares_others(queue: QueueView, tx: u64, holder: u64, id: u128)
    requires
        queue.wf(),
        tx != holder,
        queue.has_id(id),
        queue.rows[queue.position(id)].held_by(holder),
    ensures
        queue.after_commit(tx).has_id(id),
        queue.after_commit(tx).rows[queue.after_commit(tx).position(id)]
            == queue.rows[queue.position(id)],
        queue.after_rollback(tx).has_id(id),
        queue.after_rollback(tx).rows[queue.after_rollback(tx).position(id)]
            == queue.rows[queue.position(id)],
{
    let p = queue.position(id);
    let row = queue.rows[p];
    let keep_c = |row: RowView| row.survives_commit(tx);
    let settle_c = |row: RowView| row.committed(tx);
    let keep_r = |row: RowView| row.survives_rollback(tx);
    let settle_r = |row: RowView| row.rolled_back(tx);
    lemma_resolution_wf(queue, tx);
    lemma_resolved_wf(queue.rows, keep_c, settle_c);
    lemma_resolved_wf(queue.rows, keep_r, settle_r);
    let committed = queue.after_commit(tx);
    assert(keep_c(queue.rows[p]));
    assert(committed.rows.contains(settle_c(row)));
    let c = choose|c: int| 0 <= c < committed.rows.len() && committed.rows[c] == settle_c(row);
    lemma_position_unique(committed, c, id);
    let rolled = queue.after_rollback(tx);
    assert(keep_r(queue.rows[p]));
    assert(rolled.rows.contains(settle_r(row)));
    let r = choose|r: int| 0 <= r < rolled.rows.len() && rolled.rows[r] == settle_r(row);
    lemma_position_unique(rolled, r, id);
}

} // verus!
