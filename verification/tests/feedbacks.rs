use fuzz_core::corpus::Testcase;
use fuzz_core::feedbacks::{Feedback, MapFeedback, MaxMapFeedback, MinMapFeedback};
use fuzz_core::observers::{MapObserver, Observers};
use fuzz_core::Error;

fn observer_bag(name: &str, cells: Vec<u8>) -> Observers {
    let mut observers = Observers::new();
    observers.push(MapObserver::new(name.to_string(), cells));
    observers
}

#[test]
fn novelty_counting_max() {
    let mut feedback: MaxMapFeedback = MapFeedback::new("cov", 4);
    let observers = observer_bag("cov", vec![0, 7, 0, 3]);
    assert_eq!(feedback.is_interesting(&observers), Ok(2));
    assert_eq!(feedback.history_map().as_slice(), &[0, 7, 0, 3]);
    assert_eq!(feedback.is_interesting(&observers), Ok(0));
    assert_eq!(feedback.history_map().as_slice(), &[0, 7, 0, 3]);
}

#[test]
fn min_reducer_zero_initialized_is_degenerate() {
    let mut feedback: MinMapFeedback = MapFeedback::new("cov", 2);
    let observers = observer_bag("cov", vec![5, 5]);
    assert_eq!(feedback.is_interesting(&observers), Ok(0));
    assert_eq!(feedback.history_map().as_slice(), &[0, 0]);
}

#[test]
fn min_reducer_with_max_initializer_tracks_minima() {
    let mut feedback: MinMapFeedback = MapFeedback::with_history_map("cov", vec![u8::MAX, u8::MAX]);
    let observers = observer_bag("cov", vec![5, 9]);
    assert_eq!(feedback.is_interesting(&observers), Ok(2));
    assert_eq!(feedback.history_map().as_slice(), &[5, 9]);
    let lower = observer_bag("cov", vec![7, 3]);
    assert_eq!(feedback.is_interesting(&lower), Ok(1));
    assert_eq!(feedback.history_map().as_slice(), &[5, 3]);
}

#[test]
fn max_history_is_monotone_across_calls() {
    let mut feedback: MaxMapFeedback = MapFeedback::new("cov", 3);
    let first = observer_bag("cov", vec![4, 1, 9]);
    feedback.is_interesting(&first).unwrap();
    let before = feedback.history_map().clone();
    let second = observer_bag("cov", vec![2, 8, 3]);
    feedback.is_interesting(&second).unwrap();
    let after = feedback.history_map().clone();
    for i in 0..3 {
        assert!(after[i] >= before[i]);
    }
    assert_eq!(after.as_slice(), &[4, 8, 9]);
}

#[test]
fn missing_observer_is_key_not_found() {
    let mut feedback: MaxMapFeedback = MapFeedback::new("cov", 2);
    let observers = observer_bag("other", vec![1, 2]);
    assert_eq!(feedback.is_interesting(&observers), Err(Error::KeyNotFound));
    assert_eq!(feedback.history_map().as_slice(), &[0, 0]);
}

#[test]
fn length_disagreement_is_size_mismatch() {
    let mut feedback: MaxMapFeedback = MapFeedback::new("cov", 2);
    let observers = observer_bag("cov", vec![1, 2, 3]);
    assert_eq!(feedback.is_interesting(&observers), Err(Error::SizeMismatch));
    assert_eq!(feedback.history_map().as_slice(), &[0, 0]);
}

#[test]
fn feedback_name_and_observer_mirroring() {
    let observer = MapObserver::new("edges".to_string(), vec![0, 0, 0]);
    let feedback: MaxMapFeedback = MapFeedback::new_with_observer(&observer);
    assert_eq!(feedback.name(), "edges");
    assert_eq!(feedback.history_map().len(), 3);
    assert!(feedback.history_map().iter().all(|&c| c == 0));
}

#[test]
fn metadata_hooks_are_no_ops() {
    let mut feedback: MaxMapFeedback = MapFeedback::new("cov", 2);
    let mut testcase = Testcase::new(3, 4);
    assert_eq!(feedback.append_metadata(&mut testcase), Ok(()));
    assert_eq!(testcase, Testcase::new(3, 4));
    assert_eq!(feedback.discard_metadata(), Ok(()));
    assert_eq!(feedback.history_map().as_slice(), &[0, 0]);
}

#[test]
fn observer_lookup_finds_first_match() {
    let mut observers = Observers::new();
    observers.push(MapObserver::new("a".to_string(), vec![1]));
    observers.push(MapObserver::new("b".to_string(), vec![2, 2]));
    let found = observers.get(&"b".to_string()).unwrap();
    assert_eq!(found.name(), "b");
    assert_eq!(found.len(), 2);
    assert!(observers.get(&"c".to_string()).is_none());
}
