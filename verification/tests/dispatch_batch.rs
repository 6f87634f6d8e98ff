use batch_fetch::aggregate::BatchResult;
use batch_fetch::dispatch::{dispatch, DispatchConfig};
use batch_fetch::fetch::{FetchObservation, TransportEvent};
use batch_fetch::outcome::{FailReason, Outcome, SkipReason};
use batch_fetch::task::TaskSet;

fn task_set(n: usize) -> TaskSet {
    let mut sources: Vec<String> = Vec::new();
    let mut destinations: Vec<String> = Vec::new();
    for i in 0..n {
        sources.push(format!("https://example.org/resource/{}", i));
        destinations.push(format!("/tmp/resource_{}", i));
    }
    TaskSet::new(&sources, &destinations).unwrap()
}

fn all_configs() -> Vec<DispatchConfig> {
    vec![
        DispatchConfig::Unbounded,
        DispatchConfig::BoundedQueue { capacity: 1, workers: 1 },
        DispatchConfig::BoundedQueue { capacity: 2, workers: 3 },
        DispatchConfig::DataParallel { workers: 1 },
        DispatchConfig::DataParallel { workers: 4 },
    ]
}

fn outcomes(r: &BatchResult) -> Vec<Outcome> {
    let mut v = Vec::new();
    for i in 0..r.len() {
        v.push(r.get(i));
    }
    v
}

#[test]
fn task_set_pairs_sources_with_destinations() {
    let sources = vec![String::from("https://example.org/a"), String::from("https://example.org/b")];
    let destinations = vec![String::from("/tmp/a"), String::from("/tmp/b")];
    let ts = TaskSet::new(&sources, &destinations).unwrap();
    assert_eq!(ts.len(), 2);
    assert_eq!(ts.get(0).source, "https://example.org/a");
    assert_eq!(ts.get(0).destination, "/tmp/a");
    assert_eq!(ts.get(1).source, "https://example.org/b");
    assert_eq!(ts.get(1).destination, "/tmp/b");
}

#[test]
fn task_set_rejects_unequal_lengths() {
    let sources = vec![String::from("https://example.org/a")];
    let destinations: Vec<String> = Vec::new();
    assert!(TaskSet::new(&sources, &destinations).is_none());
}

#[test]
fn empty_batch_yields_empty_result() {
    let ts = task_set(0);
    let obs: Vec<FetchObservation> = Vec::new();
    for config in all_configs() {
        let r = dispatch(&ts, config, &obs);
        assert_eq!(r.len(), 0);
    }
}

#[test]
fn every_strategy_returns_one_outcome_per_task() {
    for n in [1usize, 2, 5, 17] {
        let ts = task_set(n);
        let mut obs = Vec::new();
        for i in 0..n {
            obs.push(if i % 3 == 0 {
                FetchObservation::Transferred(TransportEvent::Status(200))
            } else if i % 3 == 1 {
                FetchObservation::Transferred(TransportEvent::Status(503))
            } else {
                FetchObservation::DestinationExists
            });
        }
        for config in all_configs() {
            let r = dispatch(&ts, config, &obs);
            assert_eq!(r.len(), n);
        }
    }
}

#[test]
fn mixed_batch_scenario() {
    // Two fresh destinations; the first source answers 200, the second 404.
    let ts = task_set(2);
    let obs = vec![
        FetchObservation::Transferred(TransportEvent::Status(200)),
        FetchObservation::Transferred(TransportEvent::Status(404)),
    ];
    for config in all_configs() {
        let r = dispatch(&ts, config, &obs);
        assert_eq!(
            outcomes(&r),
            vec![Outcome::Completed, Outcome::Failed(FailReason::BadStatus(404))]
        );
    }
}

#[test]
fn second_run_skips_both() {
    // The same batch again: both destinations now exist — the failed partial
    // write of the first run counts as existing too — so both are skipped.
    let ts = task_set(2);
    let obs = vec![FetchObservation::DestinationExists, FetchObservation::DestinationExists];
    for config in all_configs() {
        let r = dispatch(&ts, config, &obs);
        assert_eq!(
            outcomes(&r),
            vec![
                Outcome::Skipped(SkipReason::AlreadyExists),
                Outcome::Skipped(SkipReason::AlreadyExists)
            ]
        );
    }
}

#[test]
fn one_bad_status_leaves_other_tasks_untouched() {
    let ts = task_set(3);
    let obs = vec![
        FetchObservation::Transferred(TransportEvent::Status(200)),
        FetchObservation::Transferred(TransportEvent::Status(404)),
        FetchObservation::DestinationExists,
    ];
    for config in all_configs() {
        let r = dispatch(&ts, config, &obs);
        assert_eq!(
            outcomes(&r),
            vec![
                Outcome::Completed,
                Outcome::Failed(FailReason::BadStatus(404)),
                Outcome::Skipped(SkipReason::AlreadyExists)
            ]
        );
    }
}

#[test]
fn strategies_agree_on_every_batch() {
    let n = 9;
    let ts = task_set(n);
    let mut obs = Vec::new();
    for i in 0..n {
        obs.push(match i % 4 {
            0 => FetchObservation::Transferred(TransportEvent::Status(200)),
            1 => FetchObservation::Transferred(TransportEvent::Status(410)),
            2 => FetchObservation::Transferred(TransportEvent::TransportError),
            _ => FetchObservation::DestinationExists,
        });
    }
    let reference = outcomes(&dispatch(&ts, DispatchConfig::Unbounded, &obs));
    for config in all_configs() {
        let r = dispatch(&ts, config, &obs);
        assert_eq!(outcomes(&r), reference);
    }
}
