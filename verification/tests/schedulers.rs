use fuzz_core::corpus::{SchedulerTestcaseMetadata, Testcase};
use fuzz_core::observers::{MapObserver, Observers};
use fuzz_core::schedulers::{
    AflScheduler, HasQueueCycles, QueueScheduler, RandScheduler, Scheduler, SchedulerMetadata,
};
use fuzz_core::state::CampaignState;
use fuzz_core::Error;

#[test]
fn rand_scheduler_empty_corpus_is_empty_error() {
    let mut scheduler = RandScheduler::new();
    let mut state = CampaignState::with_seed(1);
    assert_eq!(scheduler.next(&mut state), Err(Error::Empty));
}

#[test]
fn rand_scheduler_returns_stored_id() {
    let mut scheduler = RandScheduler::new();
    let mut state = CampaignState::with_seed(1);
    let id = state.corpus.add(Testcase::new(1, 1));
    let picked = scheduler.next(&mut state).unwrap();
    assert_eq!(picked, id);
    assert_eq!(state.corpus.current(), Some(id));
}

#[test]
fn rand_scheduler_on_add_links_parent() {
    let mut scheduler = RandScheduler::new();
    let mut state = CampaignState::with_seed(1);
    let a = state.corpus.add(Testcase::new(1, 1));
    scheduler.on_add(&mut state, a).unwrap();
    assert_eq!(state.corpus.get(a).unwrap().parent_id, None);
    state.corpus.set_current(Some(a));
    let b = state.corpus.add(Testcase::new(1, 1));
    scheduler.on_add(&mut state, b).unwrap();
    assert_eq!(state.corpus.get(b).unwrap().parent_id, Some(a));
}

#[test]
fn queue_scheduler_cycles_in_insertion_order() {
    let mut scheduler = QueueScheduler::new("cov");
    let mut state = CampaignState::with_seed(1);
    let a = state.corpus.add(Testcase::new(1, 1));
    let b = state.corpus.add(Testcase::new(1, 1));
    let c = state.corpus.add(Testcase::new(1, 1));
    assert_eq!(scheduler.next(&mut state).unwrap(), a);
    assert_eq!(scheduler.next(&mut state).unwrap(), b);
    assert_eq!(scheduler.next(&mut state).unwrap(), c);
    assert_eq!(scheduler.queue_cycles(), 0);
    assert_eq!(scheduler.next(&mut state).unwrap(), a);
    assert_eq!(scheduler.queue_cycles(), 1);
}

#[test]
fn queue_scheduler_empty_corpus_is_empty_error() {
    let mut scheduler = QueueScheduler::new("cov");
    let mut state = CampaignState::with_seed(1);
    assert_eq!(scheduler.next(&mut state), Err(Error::Empty));
}

#[test]
fn queue_scheduler_skips_removed_current() {
    let mut scheduler = QueueScheduler::new("cov");
    let mut state = CampaignState::with_seed(1);
    let a = state.corpus.add(Testcase::new(1, 1));
    let b = state.corpus.add(Testcase::new(1, 1));
    let c = state.corpus.add(Testcase::new(1, 1));
    assert_eq!(scheduler.next(&mut state).unwrap(), a);
    assert_eq!(scheduler.next(&mut state).unwrap(), b);
    state.corpus.remove(b).unwrap();
    assert_eq!(scheduler.next(&mut state).unwrap(), c);
    let _ = a;
}

#[test]
fn depth_propagation_along_parent_chain() {
    let scheduler = QueueScheduler::new("cov");
    let mut state = CampaignState::with_seed(1);
    let a = state.corpus.add(Testcase::new(1, 1));
    scheduler.on_add_metadata(&mut state, a).unwrap();
    let meta_a = state.corpus.get(a).unwrap().scheduler_metadata.unwrap();
    assert_eq!(meta_a.depth, 1);
    assert_eq!(state.corpus.get(a).unwrap().parent_id, None);

    state.corpus.set_current(Some(a));
    let b = state.corpus.add(Testcase::new(1, 1));
    scheduler.on_add_metadata(&mut state, b).unwrap();
    let meta_b = state.corpus.get(b).unwrap().scheduler_metadata.unwrap();
    assert_eq!(meta_b.depth, 2);
    assert_eq!(state.corpus.get(b).unwrap().parent_id, Some(a));

    state.corpus.set_current(Some(b));
    let c = state.corpus.add(Testcase::new(1, 1));
    scheduler.on_add_metadata(&mut state, c).unwrap();
    let meta_c = state.corpus.get(c).unwrap().scheduler_metadata.unwrap();
    assert_eq!(meta_c.depth, 3);
    assert_eq!(state.corpus.get(c).unwrap().parent_id, Some(b));
}

#[test]
fn handicap_ages_by_four_then_by_one() {
    let mut scheduler = QueueScheduler::new("cov");
    let mut state = CampaignState::with_seed(1);
    let a = state.corpus.add(Testcase::new(1, 1));
    let meta = SchedulerTestcaseMetadata { depth: 1, handicap: 5, n_fuzz_entry: 0 };
    state.corpus.set_scheduler_metadata(a, meta).unwrap();
    state.corpus.set_current(Some(a));

    scheduler.on_next_metadata(&mut state, Some(a)).unwrap();
    assert_eq!(state.corpus.get(a).unwrap().scheduler_metadata.unwrap().handicap, 1);

    scheduler.on_next_metadata(&mut state, Some(a)).unwrap();
    assert_eq!(state.corpus.get(a).unwrap().scheduler_metadata.unwrap().handicap, 0);

    scheduler.on_next_metadata(&mut state, Some(a)).unwrap();
    assert_eq!(state.corpus.get(a).unwrap().scheduler_metadata.unwrap().handicap, 0);
}

#[test]
fn evaluation_bumps_one_frequency_bucket() {
    let mut scheduler = QueueScheduler::new("cov");
    let mut state = CampaignState::with_seed(1);
    state.scheduler_metadata = Some(SchedulerMetadata::new(8));
    let mut observers = Observers::new();
    observers.push(MapObserver::new("cov".to_string(), vec![1, 2, 3, 4]));

    scheduler.on_evaluation_metadata(&mut state, &observers).unwrap();
    let n_fuzz = state.scheduler_metadata.as_ref().unwrap().n_fuzz().clone();
    assert_eq!(n_fuzz.len(), 8);
    let total: u64 = n_fuzz.iter().map(|&v| v as u64).sum();
    assert_eq!(total, 1);
    assert_eq!(n_fuzz[scheduler.last_hash()], 1);

    let first_bucket = scheduler.last_hash();
    scheduler.on_evaluation_metadata(&mut state, &observers).unwrap();
    let again = state.scheduler_metadata.as_ref().unwrap().n_fuzz().clone();
    let total_again: u64 = again.iter().map(|&v| v as u64).sum();
    assert_eq!(total_again, 2);
    // the hash is a function of the map's cells, so the same observation
    // lands in the same bucket
    assert_eq!(scheduler.last_hash(), first_bucket);
    assert_eq!(again[first_bucket], 2);
    for i in 0..8 {
        assert!(again[i] >= n_fuzz[i]);
    }
}

#[test]
fn evaluation_without_observer_is_key_not_found() {
    let mut scheduler = QueueScheduler::new("cov");
    let mut state = CampaignState::with_seed(1);
    state.scheduler_metadata = Some(SchedulerMetadata::new(8));
    let observers = Observers::new();
    assert_eq!(
        scheduler.on_evaluation_metadata(&mut state, &observers),
        Err(Error::KeyNotFound)
    );
}

#[test]
fn evaluation_without_metadata_is_key_not_found() {
    let mut scheduler = QueueScheduler::new("cov");
    let mut state = CampaignState::with_seed(1);
    let mut observers = Observers::new();
    observers.push(MapObserver::new("cov".to_string(), vec![1]));
    assert_eq!(
        scheduler.on_evaluation_metadata(&mut state, &observers),
        Err(Error::KeyNotFound)
    );
}

#[test]
fn saturating_counter_never_wraps() {
    let mut meta = SchedulerMetadata::with_n_fuzz(vec![u32::MAX, 3]);
    meta.bump(0);
    meta.bump(1);
    assert_eq!(meta.n_fuzz().as_slice(), &[u32::MAX, 4]);
}

#[test]
fn queue_scheduler_same_calls_same_sequence() {
    let mut ids1 = Vec::new();
    let mut ids2 = Vec::new();
    for ids in [&mut ids1, &mut ids2] {
        let mut scheduler = QueueScheduler::new("cov");
        let mut state = CampaignState::with_seed(3);
        for _ in 0..4 {
            state.corpus.add(Testcase::new(1, 1));
        }
        for _ in 0..9 {
            ids.push(scheduler.next(&mut state).unwrap());
        }
    }
    assert_eq!(ids1, ids2);
}

#[test]
fn rand_scheduler_same_seed_same_sequence() {
    let mut ids1 = Vec::new();
    let mut ids2 = Vec::new();
    for ids in [&mut ids1, &mut ids2] {
        let mut scheduler = RandScheduler::new();
        let mut state = CampaignState::with_seed(42);
        for _ in 0..5 {
            state.corpus.add(Testcase::new(1, 1));
        }
        for _ in 0..10 {
            ids.push(scheduler.next(&mut state).unwrap());
        }
    }
    assert_eq!(ids1, ids2);
}
