use delivery_queue::email_delivery_queue::{
    deprioritise_task, insert_task, peek_task, pop_task, push_task, DeliveryQueue, RetryState,
    StoreError,
};

const ALICE: u128 = 0xa11ce;
const BOB: u128 = 0xb0b;
const NOW: i64 = 1_700_000_000;

fn queue_with_subscribers() -> DeliveryQueue {
    let mut queue = DeliveryQueue::new();
    queue.set_subscriber(ALICE, "alice@example.com");
    queue.set_subscriber(BOB, "bob@example.com");
    queue
}

fn enqueue(queue: &mut DeliveryQueue, id: u128, subscriber: u128, now: i64) {
    insert_task(queue, 900, id, subscriber, "subject", "<p>html</p>", "text", now).unwrap();
    queue.commit(900);
}

#[test]
fn new_queue_is_empty() {
    let mut queue = DeliveryQueue::new();
    assert_eq!(queue.len(), 0);
    assert!(peek_task(&mut queue, 1, NOW).is_none());
    assert_eq!(queue.lookup(1), None);
}

#[test]
fn enqueued_task_starts_unretried_and_eligible_at_once() {
    let mut queue = queue_with_subscribers();
    insert_task(&mut queue, 7, 1, ALICE, "Hello", "<b>hi</b>", "hi", NOW).unwrap();
    queue.commit(7);
    assert_eq!(queue.len(), 1);
    assert_eq!(queue.lookup(1), Some(RetryState { n_retries: 0, send_after: NOW }));
    let task = peek_task(&mut queue, 8, NOW).expect("eligible at the instant of enqueue");
    assert_eq!(task.id, 1);
    assert_eq!(task.subscriber_id, ALICE);
    assert_eq!(task.email, "alice@example.com");
    assert_eq!(task.subject, "Hello");
    assert_eq!(task.email_html, "<b>hi</b>");
    assert_eq!(task.email_text, "hi");
    assert_eq!(task.created_at, NOW);
    assert_eq!(task.n_retries, 0);
    assert_eq!(task.send_after, NOW);
}

#[test]
fn push_task_draws_a_fresh_id_each_time() {
    let mut queue = queue_with_subscribers();
    let first = push_task(&mut queue, 1, ALICE, "s", "h", "t", NOW).unwrap();
    let second = push_task(&mut queue, 1, ALICE, "s", "h", "t", NOW).unwrap();
    let third = push_task(&mut queue, 1, BOB, "s", "h", "t", NOW).unwrap();
    assert_ne!(first, second);
    assert_ne!(first, third);
    assert_ne!(second, third);
    queue.commit(1);
    assert_eq!(queue.len(), 3);
    assert!(queue.lookup(first).is_some());
    assert!(queue.lookup(second).is_some());
    assert!(queue.lookup(third).is_some());
    // Version 4 ids carry the version in bits 76..80 and the variant in bits 62..64.
    assert_eq!((first >> 76) & 0xf, 4);
    assert_eq!((first >> 62) & 0x3, 2);
}

#[test]
fn taken_id_is_refused() {
    let mut queue = queue_with_subscribers();
    enqueue(&mut queue, 5, ALICE, NOW);
    let again = insert_task(&mut queue, 1, 5, BOB, "s", "h", "t", NOW);
    assert!(matches!(again, Err(StoreError::DuplicateId)));
    assert_eq!(queue.len(), 1);
}

#[test]
fn id_taken_by_an_uncommitted_row_is_refused() {
    let mut queue = queue_with_subscribers();
    insert_task(&mut queue, 1, 5, ALICE, "s", "h", "t", NOW).unwrap();
    let again = insert_task(&mut queue, 2, 5, BOB, "s", "h", "t", NOW);
    assert!(matches!(again, Err(StoreError::DuplicateId)));
}

#[test]
fn first_claim_returns_the_task_enqueued_first() {
    let mut queue = queue_with_subscribers();
    enqueue(&mut queue, 0xA, ALICE, NOW);
    enqueue(&mut queue, 0xB, BOB, NOW);
    let first = peek_task(&mut queue, 1, NOW).unwrap();
    assert_eq!(first.id, 0xA);
    assert_eq!(first.email, "alice@example.com");
}

#[test]
fn insertion_order_wins_over_ids_and_instants() {
    let mut queue = queue_with_subscribers();
    enqueue(&mut queue, 99, ALICE, NOW);
    enqueue(&mut queue, 1, BOB, NOW - 500);
    assert_eq!(peek_task(&mut queue, 1, NOW).unwrap().id, 99);
}

#[test]
fn claim_returns_none_when_nothing_is_enqueued() {
    let mut queue = queue_with_subscribers();
    assert!(peek_task(&mut queue, 1, NOW).is_none());
    assert_eq!(queue.len(), 0);
}

#[test]
fn claim_locks_the_row_for_the_claimer() {
    let mut queue = queue_with_subscribers();
    enqueue(&mut queue, 1, ALICE, NOW);
    assert_eq!(queue.holder(1), None);
    peek_task(&mut queue, 42, NOW).unwrap();
    assert_eq!(queue.holder(1), Some(42));
}

#[test]
fn concurrent_claimers_get_different_tasks() {
    let mut queue = queue_with_subscribers();
    enqueue(&mut queue, 1, ALICE, NOW);
    enqueue(&mut queue, 2, BOB, NOW);
    enqueue(&mut queue, 3, ALICE, NOW);
    let a = peek_task(&mut queue, 10, NOW).unwrap();
    let b = peek_task(&mut queue, 11, NOW).unwrap();
    let c = peek_task(&mut queue, 12, NOW).unwrap();
    assert_eq!((a.id, b.id, c.id), (1, 2, 3));
    assert!(peek_task(&mut queue, 13, NOW).is_none());
}

#[test]
fn locked_row_is_skipped_not_waited_for() {
    let mut queue = queue_with_subscribers();
    enqueue(&mut queue, 1, ALICE, NOW);
    assert_eq!(peek_task(&mut queue, 10, NOW).unwrap().id, 1);
    assert!(peek_task(&mut queue, 11, NOW + 1_000).is_none());
    assert_eq!(queue.holder(1), Some(10));
}

#[test]
fn claimer_sees_its_own_claim_again() {
    let mut queue = queue_with_subscribers();
    enqueue(&mut queue, 1, ALICE, NOW);
    enqueue(&mut queue, 2, BOB, NOW);
    assert_eq!(peek_task(&mut queue, 10, NOW).unwrap().id, 1);
    assert_eq!(peek_task(&mut queue, 10, NOW).unwrap().id, 1);
    assert_eq!(queue.holder(2), None);
}

#[test]
fn crash_after_claim_leaves_the_task_claimable() {
    let mut queue = queue_with_subscribers();
    enqueue(&mut queue, 1, ALICE, NOW);
    peek_task(&mut queue, 10, NOW).unwrap();
    queue.rollback(10);
    assert_eq!(queue.holder(1), None);
    assert_eq!(queue.lookup(1), Some(RetryState { n_retries: 0, send_after: NOW }));
    assert_eq!(peek_task(&mut queue, 11, NOW).unwrap().id, 1);
}

#[test]
fn crash_after_defer_forgets_the_deferral() {
    let mut queue = queue_with_subscribers();
    enqueue(&mut queue, 1, ALICE, NOW);
    let task = peek_task(&mut queue, 10, NOW).unwrap();
    deprioritise_task(&mut queue, 10, task.id, task.n_retries, NOW).unwrap();
    queue.rollback(10);
    assert_eq!(queue.lookup(1), Some(RetryState { n_retries: 0, send_after: NOW }));
    assert_eq!(peek_task(&mut queue, 11, NOW).unwrap().n_retries, 0);
}

#[test]
fn crash_after_delete_keeps_the_task() {
    let mut queue = queue_with_subscribers();
    enqueue(&mut queue, 1, ALICE, NOW);
    let task = peek_task(&mut queue, 10, NOW).unwrap();
    pop_task(&mut queue, 10, task.id).unwrap();
    queue.rollback(10);
    assert_eq!(queue.len(), 1);
    assert_eq!(peek_task(&mut queue, 11, NOW).unwrap().id, 1);
}

#[test]
fn rollback_drops_uncommitted_insertions() {
    let mut queue = queue_with_subscribers();
    insert_task(&mut queue, 10, 1, ALICE, "s", "h", "t", NOW).unwrap();
    assert_eq!(queue.len(), 1);
    queue.rollback(10);
    assert_eq!(queue.len(), 0);
}

#[test]
fn uncommitted_insertion_is_invisible_to_others() {
    let mut queue = queue_with_subscribers();
    insert_task(&mut queue, 10, 1, ALICE, "s", "h", "t", NOW).unwrap();
    assert_eq!(queue.lookup(1), None);
    assert!(peek_task(&mut queue, 11, NOW).is_none());
    assert_eq!(peek_task(&mut queue, 10, NOW).unwrap().id, 1);
    queue.commit(10);
    assert_eq!(queue.lookup(1), Some(RetryState { n_retries: 0, send_after: NOW }));
    assert_eq!(peek_task(&mut queue, 11, NOW).unwrap().id, 1);
}

#[test]
fn completed_task_is_absent_after_commit() {
    let mut queue = queue_with_subscribers();
    enqueue(&mut queue, 1, ALICE, NOW);
    let task = peek_task(&mut queue, 10, NOW).unwrap();
    pop_task(&mut queue, 10, task.id).unwrap();
    assert_eq!(queue.len(), 1);
    assert!(peek_task(&mut queue, 10, NOW).is_none());
    queue.commit(10);
    assert_eq!(queue.len(), 0);
    assert_eq!(queue.lookup(1), None);
    assert!(peek_task(&mut queue, 11, NOW).is_none());
}

#[test]
fn completing_a_deleted_task_is_a_no_op() {
    let mut queue = queue_with_subscribers();
    enqueue(&mut queue, 1, ALICE, NOW);
    enqueue(&mut queue, 2, BOB, NOW);
    pop_task(&mut queue, 10, 1).unwrap();
    assert!(pop_task(&mut queue, 10, 1).is_ok());
    queue.commit(10);
    assert!(pop_task(&mut queue, 11, 1).is_ok());
    assert!(pop_task(&mut queue, 10, 1).is_ok());
    queue.commit(11);
    assert_eq!(queue.len(), 1);
    assert_eq!(queue.lookup(2), Some(RetryState { n_retries: 0, send_after: NOW }));
}

#[test]
fn completing_an_unknown_id_is_a_no_op() {
    let mut queue = queue_with_subscribers();
    enqueue(&mut queue, 1, ALICE, NOW);
    assert!(pop_task(&mut queue, 10, 777).is_ok());
    queue.commit(10);
    assert_eq!(queue.len(), 1);
}

#[test]
fn deferring_an_unknown_id_is_a_no_op() {
    let mut queue = queue_with_subscribers();
    enqueue(&mut queue, 1, ALICE, NOW);
    assert!(deprioritise_task(&mut queue, 10, 777, 0, NOW).is_ok());
    queue.commit(10);
    assert_eq!(queue.lookup(1), Some(RetryState { n_retries: 0, send_after: NOW }));
}

#[test]
fn first_deferral_counts_one_retry_and_waits_sixty_seconds() {
    let mut queue = queue_with_subscribers();
    enqueue(&mut queue, 1, ALICE, NOW);
    let task = peek_task(&mut queue, 10, NOW).unwrap();
    assert_eq!(task.n_retries, 0);
    deprioritise_task(&mut queue, 10, task.id, task.n_retries, NOW).unwrap();
    queue.commit(10);
    assert_eq!(queue.lookup(1), Some(RetryState { n_retries: 1, send_after: NOW + 60 }));
    assert_eq!(queue.holder(1), None);
}

#[test]
fn deferrals_double_the_wait() {
    let mut queue = queue_with_subscribers();
    enqueue(&mut queue, 1, ALICE, NOW);
    let mut now = NOW;
    let mut expected_wait = 60;
    for failures in 0..10u32 {
        let task = peek_task(&mut queue, 10, now).unwrap();
        assert_eq!(task.n_retries, failures);
        deprioritise_task(&mut queue, 10, task.id, task.n_retries, now).unwrap();
        queue.commit(10);
        assert_eq!(
            queue.lookup(1),
            Some(RetryState { n_retries: failures + 1, send_after: now + expected_wait })
        );
        now += expected_wait;
        expected_wait *= 2;
    }
}

#[test]
fn deferral_uses_the_retry_count_it_is_given_for_the_wait() {
    let mut queue = queue_with_subscribers();
    enqueue(&mut queue, 1, ALICE, NOW);
    peek_task(&mut queue, 10, NOW).unwrap();
    deprioritise_task(&mut queue, 10, 1, 3, NOW).unwrap();
    queue.commit(10);
    assert_eq!(queue.lookup(1), Some(RetryState { n_retries: 1, send_after: NOW + 480 }));
}

#[test]
fn deferred_task_is_hidden_until_its_instant() {
    let mut queue = queue_with_subscribers();
    enqueue(&mut queue, 1, ALICE, NOW);
    let task = peek_task(&mut queue, 10, NOW).unwrap();
    deprioritise_task(&mut queue, 10, task.id, task.n_retries, NOW).unwrap();
    queue.commit(10);
    assert!(peek_task(&mut queue, 11, NOW).is_none());
    assert!(peek_task(&mut queue, 11, NOW + 1).is_none());
    assert!(peek_task(&mut queue, 11, NOW + 59).is_none());
    let again = peek_task(&mut queue, 11, NOW + 60).expect("eligible at its instant");
    assert_eq!(again.id, 1);
    assert_eq!(again.n_retries, 1);
    assert_eq!(again.send_after, NOW + 60);
}

#[test]
fn deferred_task_is_hidden_from_the_deferring_transaction_too() {
    let mut queue = queue_with_subscribers();
    enqueue(&mut queue, 1, ALICE, NOW);
    enqueue(&mut queue, 2, BOB, NOW);
    let task = peek_task(&mut queue, 10, NOW).unwrap();
    deprioritise_task(&mut queue, 10, task.id, task.n_retries, NOW).unwrap();
    assert_eq!(peek_task(&mut queue, 10, NOW).unwrap().id, 2);
}

#[test]
fn task_enqueued_for_later_is_not_claimed_early() {
    let mut queue = queue_with_subscribers();
    enqueue(&mut queue, 1, ALICE, NOW + 10);
    assert!(peek_task(&mut queue, 10, NOW).is_none());
    assert!(peek_task(&mut queue, 10, NOW + 9).is_none());
    assert_eq!(peek_task(&mut queue, 10, NOW + 10).unwrap().id, 1);
}

#[test]
fn later_task_is_claimed_while_an_earlier_one_waits() {
    let mut queue = queue_with_subscribers();
    enqueue(&mut queue, 1, ALICE, NOW);
    enqueue(&mut queue, 2, BOB, NOW);
    let task = peek_task(&mut queue, 10, NOW).unwrap();
    deprioritise_task(&mut queue, 10, task.id, task.n_retries, NOW).unwrap();
    queue.commit(10);
    assert_eq!(peek_task(&mut queue, 11, NOW + 30).unwrap().id, 2);
    queue.rollback(11);
    assert_eq!(peek_task(&mut queue, 11, NOW + 60).unwrap().id, 1);
}

#[test]
fn row_held_by_another_transaction_cannot_be_deleted() {
    let mut queue = queue_with_subscribers();
    enqueue(&mut queue, 1, ALICE, NOW);
    peek_task(&mut queue, 10, NOW).unwrap();
    assert!(matches!(pop_task(&mut queue, 11, 1), Err(StoreError::RowLocked)));
    queue.commit(11);
    assert_eq!(queue.len(), 1);
    assert_eq!(queue.holder(1), Some(10));
}

#[test]
fn row_held_by_another_transaction_cannot_be_deferred() {
    let mut queue = queue_with_subscribers();
    enqueue(&mut queue, 1, ALICE, NOW);
    peek_task(&mut queue, 10, NOW).unwrap();
    assert!(matches!(deprioritise_task(&mut queue, 11, 1, 0, NOW), Err(StoreError::RowLocked)));
    queue.commit(11);
    queue.rollback(10);
    assert_eq!(queue.lookup(1), Some(RetryState { n_retries: 0, send_after: NOW }));
}

#[test]
fn deferral_beyond_the_calendar_is_refused() {
    let mut queue = queue_with_subscribers();
    enqueue(&mut queue, 1, ALICE, 0);
    peek_task(&mut queue, 10, 0).unwrap();
    assert!(matches!(deprioritise_task(&mut queue, 10, 1, 37, 0), Err(StoreError::OutOfRange)));
    assert!(matches!(deprioritise_task(&mut queue, 10, 1, 59, 0), Err(StoreError::OutOfRange)));
    assert!(matches!(
        deprioritise_task(&mut queue, 10, 1, u32::MAX, 0),
        Err(StoreError::OutOfRange)
    ));
    queue.commit(10);
    assert_eq!(queue.lookup(1), Some(RetryState { n_retries: 0, send_after: 0 }));
    peek_task(&mut queue, 10, 0).unwrap();
    deprioritise_task(&mut queue, 10, 1, 36, 0).unwrap();
    queue.commit(10);
    assert_eq!(queue.lookup(1), Some(RetryState { n_retries: 1, send_after: 60 * (1i64 << 36) }));
}

#[test]
fn address_is_read_from_the_record_at_claim_time() {
    let mut queue = queue_with_subscribers();
    enqueue(&mut queue, 1, ALICE, NOW);
    queue.set_subscriber(ALICE, "alice@new.example.com");
    assert_eq!(peek_task(&mut queue, 10, NOW).unwrap().email, "alice@new.example.com");
}

#[test]
fn task_of_an_unknown_subscriber_is_passed_over() {
    let mut queue = queue_with_subscribers();
    enqueue(&mut queue, 1, 0xdead, NOW);
    enqueue(&mut queue, 2, BOB, NOW);
    assert_eq!(peek_task(&mut queue, 10, NOW).unwrap().id, 2);
    queue.rollback(10);
    queue.remove_subscriber(BOB);
    assert!(peek_task(&mut queue, 10, NOW).is_none());
    queue.set_subscriber(0xdead, "late@example.com");
    let task = peek_task(&mut queue, 10, NOW).unwrap();
    assert_eq!((task.id, task.email.as_str()), (1, "late@example.com"));
}

#[test]
fn commit_of_one_transaction_leaves_the_locks_of_others() {
    let mut queue = queue_with_subscribers();
    enqueue(&mut queue, 1, ALICE, NOW);
    enqueue(&mut queue, 2, BOB, NOW);
    peek_task(&mut queue, 10, NOW).unwrap();
    peek_task(&mut queue, 11, NOW).unwrap();
    pop_task(&mut queue, 10, 1).unwrap();
    pop_task(&mut queue, 11, 2).unwrap();
    queue.commit(10);
    assert_eq!(queue.len(), 1);
    assert_eq!(queue.holder(2), Some(11));
    queue.rollback(11);
    assert_eq!(queue.len(), 1);
    assert_eq!(queue.holder(2), None);
}

#[test]
fn many_claimers_never_share_a_task() {
    let mut queue = queue_with_subscribers();
    for id in 1..=20u128 {
        enqueue(&mut queue, id, if id % 2 == 0 { ALICE } else { BOB }, NOW);
    }
    let mut claimed = Vec::new();
    for round in 0..5u64 {
        for worker in 0..5u64 {
            let tx = 100 + round * 5 + worker;
            if let Some(task) = peek_task(&mut queue, tx, NOW) {
                assert_eq!(queue.holder(task.id), Some(tx));
                claimed.push(task.id);
            }
        }
    }
    assert_eq!(claimed, (1..=20u128).collect::<Vec<u128>>());
    assert!(peek_task(&mut queue, 999, NOW).is_none());
}

#[test]
fn interleaved_workers_deliver_every_task_once() {
    // A small generator keeps the interleaving varied and repeatable.
    let mut state: u64 = 0x2545f4914f6cdd1d;
    let mut next = move || {
        state ^= state << 13;
        state ^= state >> 7;
        state ^= state << 17;
        state
    };
    let mut queue = queue_with_subscribers();
    for id in 1..=30u128 {
        enqueue(&mut queue, id, ALICE, NOW);
    }
    let mut holding: Vec<Option<u128>> = vec![None; 4];
    let mut delivered: Vec<u128> = Vec::new();
    let mut now = NOW;
    let mut steps = 0;
    while delivered.len() < 30 {
        steps += 1;
        assert!(steps < 100_000);
        let worker = (next() % 4) as usize;
        let tx = worker as u64 + 1;
        match holding[worker] {
            None => {
                holding[worker] = peek_task(&mut queue, tx, now).map(|task| task.id);
                if let Some(id) = holding[worker] {
                    assert!(!delivered.contains(&id));
                    for (other, held) in holding.iter().enumerate() {
                        assert!(other == worker || *held != Some(id));
                    }
                }
            }
            Some(id) => {
                let before = queue.lookup(id).unwrap();
                match next() % 3 {
                    0 => {
                        // The worker crashes; the task is as it was.
                        queue.rollback(tx);
                        assert_eq!(queue.lookup(id), Some(before));
                    }
                    1 => {
                        deprioritise_task(&mut queue, tx, id, before.n_retries, now).unwrap();
                        queue.commit(tx);
                        let after = queue.lookup(id).unwrap();
                        assert_eq!(after.n_retries, before.n_retries + 1);
                        assert!(after.send_after > now);
                    }
                    _ => {
                        pop_task(&mut queue, tx, id).unwrap();
                        queue.commit(tx);
                        assert_eq!(queue.lookup(id), None);
                        delivered.push(id);
                    }
                }
                assert_eq!(queue.holder(id), None);
                holding[worker] = None;
            }
        }
        now += (next() % 40) as i64;
    }
    delivered.sort();
    assert_eq!(delivered, (1..=30u128).collect::<Vec<u128>>());
    assert_eq!(queue.len(), 0);
}
