use fuzz_core::corpus::Testcase;
use fuzz_core::prob_map::{prob_map_entries, ProbMap};

fn sorted_entries(map: &ProbMap) -> Vec<(u64, u64)> {
    let mut entries = prob_map_entries(map);
    entries.sort();
    entries
}
use fuzz_core::probabilistic_sampling::{
    compute_threshold, select_by_threshold, ProbabilitySamplingScheduler,
};
use fuzz_core::schedulers::{RemovableScheduler, Scheduler};
use fuzz_core::state::CampaignState;
use fuzz_core::testcase_score::{LenTimeMulTestcaseScore, UniformTestcaseScore};
use fuzz_core::Error;

type UniformProbabilitySamplingScheduler = ProbabilitySamplingScheduler<UniformTestcaseScore>;
type LenTimeProbabilitySamplingScheduler = ProbabilitySamplingScheduler<LenTimeMulTestcaseScore>;

#[test]
fn test_prob_sampling() {
    // the first 3 draws of the seeded generator are ~.76, ~.86, ~.40
    let mut scheduler: UniformProbabilitySamplingScheduler = ProbabilitySamplingScheduler::new();
    let mut state = CampaignState::with_seed(2);

    let idx1 = state.corpus.add(Testcase::new(4, 1));
    let idx2 = state.corpus.add(Testcase::new(4, 1));
    scheduler.on_add(&mut state, idx1).unwrap();
    scheduler.on_add(&mut state, idx2).unwrap();

    let next_id1 = scheduler.next(&mut state).unwrap();
    let next_id2 = scheduler.next(&mut state).unwrap();
    let next_id3 = scheduler.next(&mut state).unwrap();
    assert_eq!(next_id1, next_id2);
    assert_ne!(next_id1, next_id3);
}

#[test]
fn uniform_sampling_over_two_items() {
    // Two entries of weight 1337 each. A draw of one quarter lands in the
    // first entry's mass, a draw of three quarters in the second's.
    let entries = vec![(1u64, 1337u64), (2u64, 1337u64)];
    let quarter: u64 = 1 << 51; // 0.25 of the 53-bit draw range
    let three_quarters: u64 = 3 << 51;

    let low = compute_threshold(2674, quarter);
    assert_eq!(low, 668);
    assert_eq!(select_by_threshold(&entries, low), 0);

    let high = compute_threshold(2674, three_quarters);
    assert_eq!(high, 2005);
    assert_eq!(select_by_threshold(&entries, high), 1);
}

#[test]
fn threshold_stays_below_a_positive_total() {
    assert_eq!(compute_threshold(0, u64::MAX), 0);
    assert!(compute_threshold(1, u64::MAX) < 1);
    assert!(compute_threshold(u64::MAX, u64::MAX) < u64::MAX);
    assert_eq!(compute_threshold(100, 0), 0);
}

#[test]
fn probability_removal_updates_total_and_keys() {
    // Scores 1, 2, 3 come from the length-times-time policy.
    let mut scheduler: LenTimeProbabilitySamplingScheduler = ProbabilitySamplingScheduler::new();
    let mut state = CampaignState::with_seed(7);
    let id1 = state.corpus.add(Testcase::new(1, 1));
    let id2 = state.corpus.add(Testcase::new(1, 2));
    let id3 = state.corpus.add(Testcase::new(1, 3));
    scheduler.on_add(&mut state, id1).unwrap();
    scheduler.on_add(&mut state, id2).unwrap();
    scheduler.on_add(&mut state, id3).unwrap();
    assert_eq!(state.probability_metadata.as_ref().unwrap().total_probability, 6);

    state.corpus.remove(id2).unwrap();
    scheduler.on_remove(&mut state, id2, &None).unwrap();

    let meta = state.probability_metadata.as_ref().unwrap();
    assert_eq!(meta.total_probability, 4);
    assert_eq!(sorted_entries(&meta.map), vec![(id1.0, 1), (id3.0, 3)]);
}

#[test]
fn replace_preserves_totals() {
    let mut scheduler: LenTimeProbabilitySamplingScheduler = ProbabilitySamplingScheduler::new();
    let mut state = CampaignState::with_seed(7);
    let id1 = state.corpus.add(Testcase::new(1, 5));
    let id2 = state.corpus.add(Testcase::new(1, 7));
    scheduler.on_add(&mut state, id1).unwrap();
    scheduler.on_add(&mut state, id2).unwrap();
    assert_eq!(state.probability_metadata.as_ref().unwrap().total_probability, 12);

    let prev = state.corpus.replace(id1, Testcase::new(2, 10)).unwrap();
    scheduler.on_replace(&mut state, id1, &prev).unwrap();

    let meta = state.probability_metadata.as_ref().unwrap();
    assert_eq!(meta.total_probability, 27);
    assert_eq!(sorted_entries(&meta.map), vec![(id1.0, 20), (id2.0, 7)]);
}

#[test]
fn overflowing_total_is_invariant_violation() {
    let mut scheduler: LenTimeProbabilitySamplingScheduler = ProbabilitySamplingScheduler::new();
    let mut state = CampaignState::with_seed(7);
    let id1 = state.corpus.add(Testcase::new(1, u64::MAX));
    let id2 = state.corpus.add(Testcase::new(1, u64::MAX));
    scheduler.on_add(&mut state, id1).unwrap();
    assert_eq!(
        scheduler.on_add(&mut state, id2),
        Err(Error::InvariantViolation)
    );
    // the failed add left the table untouched
    let meta = state.probability_metadata.as_ref().unwrap();
    assert_eq!(meta.total_probability, u64::MAX);
    assert_eq!(sorted_entries(&meta.map), vec![(id1.0, u64::MAX)]);
}

#[test]
fn prob_sampling_empty_corpus_is_empty_error() {
    let mut scheduler: UniformProbabilitySamplingScheduler = ProbabilitySamplingScheduler::new();
    let mut state = CampaignState::with_seed(2);
    assert_eq!(scheduler.next(&mut state), Err(Error::Empty));
}

#[test]
fn selection_is_deterministic_for_equal_draws() {
    // Given the same enumeration of the weight table and the same drawn
    // threshold, the sampling rule picks the same entry. (Reproducibility
    // across whole campaigns additionally needs a stable enumeration
    // order, which the hash table does not promise across instances.)
    let entries = vec![(10u64, 5u64), (11u64, 1u64), (12u64, 14u64)];
    for draw in [0u64, 1 << 40, 1 << 52, (1 << 53) - 1, u64::MAX] {
        let t1 = compute_threshold(20, draw);
        let t2 = compute_threshold(20, draw);
        assert_eq!(t1, t2);
        assert_eq!(
            select_by_threshold(&entries, t1),
            select_by_threshold(&entries, t2)
        );
    }
}

#[test]
fn next_returns_an_id_still_in_the_corpus() {
    let mut scheduler: UniformProbabilitySamplingScheduler = ProbabilitySamplingScheduler::new();
    let mut state = CampaignState::with_seed(5);
    let keep = state.corpus.add(Testcase::new(1, 1));
    let gone = state.corpus.add(Testcase::new(1, 1));
    scheduler.on_add(&mut state, keep).unwrap();
    scheduler.on_add(&mut state, gone).unwrap();
    state.corpus.remove(gone).unwrap();
    scheduler.on_remove(&mut state, gone, &None).unwrap();
    for _ in 0..20 {
        assert_eq!(scheduler.next(&mut state).unwrap(), keep);
    }
}
