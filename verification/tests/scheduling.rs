use batch_fetch::aggregate::Aggregator;
use batch_fetch::bounded::BoundedScheduler;
use batch_fetch::outcome::{FailReason, Outcome};
use batch_fetch::partition::partition;

#[test]
fn aggregator_records_out_of_order() {
    let mut agg = Aggregator::new(3);
    assert!(!agg.is_complete());
    agg.record(2, Outcome::Completed);
    agg.record(0, Outcome::Failed(FailReason::IoError));
    assert!(!agg.is_complete());
    agg.record(1, Outcome::Completed);
    assert!(agg.is_complete());
    let r = agg.into_result();
    assert_eq!(r.len(), 3);
    assert_eq!(r.get(0), Outcome::Failed(FailReason::IoError));
    assert_eq!(r.get(1), Outcome::Completed);
    assert_eq!(r.get(2), Outcome::Completed);
}

#[test]
fn aggregator_for_empty_batch_is_complete() {
    let agg = Aggregator::new(0);
    assert!(agg.is_complete());
    let r = agg.into_result();
    assert_eq!(r.len(), 0);
}

#[test]
fn bounded_queue_backpressure_holds() {
    // Capacity 2, one worker: the submitter gets at most two tasks ahead,
    // and at most one task is claimed at a time.
    let mut s = BoundedScheduler::new(3, 2, 1);
    assert!(s.can_enqueue());
    s.enqueue();
    s.enqueue();
    // The queue is full: the submitter must block here.
    assert_eq!(s.queue.len(), 2);
    assert!(!s.can_enqueue());
    // A worker claims the oldest queued task; the pool is now saturated.
    assert!(s.can_claim());
    let first = s.claim();
    assert_eq!(first, 0);
    assert_eq!(s.running.len(), 1);
    assert!(!s.can_claim());
    // Room again: the submitter may push the last task.
    assert!(s.can_enqueue());
    s.enqueue();
    assert!(!s.can_enqueue());
    s.complete(first, Outcome::Completed);
    assert_eq!(s.running.len(), 0);
    // Drain the queue.
    let second = s.claim();
    assert_eq!(second, 1);
    s.complete(second, Outcome::Failed(FailReason::BadStatus(404)));
    let third = s.claim();
    assert_eq!(third, 2);
    assert!(!s.is_done());
    s.complete(third, Outcome::Completed);
    assert!(s.is_done());
    let r = s.finish();
    assert_eq!(r.len(), 3);
    assert_eq!(r.get(0), Outcome::Completed);
    assert_eq!(r.get(1), Outcome::Failed(FailReason::BadStatus(404)));
    assert_eq!(r.get(2), Outcome::Completed);
}

#[test]
fn bounded_queue_preserves_submission_order() {
    let mut s = BoundedScheduler::new(2, 2, 2);
    s.enqueue();
    s.enqueue();
    assert_eq!(s.claim(), 0);
    assert_eq!(s.claim(), 1);
    s.complete(1, Outcome::Completed);
    s.complete(0, Outcome::Completed);
    assert!(s.is_done());
}

#[test]
fn partition_tiles_the_batch() {
    assert_eq!(partition(10, 3), vec![(0, 4), (4, 8), (8, 10)]);
    assert_eq!(partition(7, 1), vec![(0, 7)]);
    assert_eq!(partition(4, 4), vec![(0, 1), (1, 2), (2, 3), (3, 4)]);
}

#[test]
fn partition_of_empty_batch_is_empty() {
    assert_eq!(partition(0, 5), Vec::<(usize, usize)>::new());
}

#[test]
fn partition_never_exceeds_the_pool() {
    for n in 0..40usize {
        for workers in 1..8usize {
            let chunks = partition(n, workers);
            assert!(chunks.len() <= workers);
            // The chunks tile 0..n exactly.
            let mut expect = 0usize;
            for &(s, e) in &chunks {
                assert_eq!(s, expect);
                assert!(s < e);
                expect = e;
            }
            assert_eq!(expect, n);
        }
    }
}
