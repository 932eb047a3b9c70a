//! Probability-sampling corpus scheduler: selects the next testcase with
//! probability proportional to its score.
//!
//! Scores are non-negative integer weights (the fixed-point stand-in for the
//! engine's finite, non-negative real scores). The campaign-wide
//! [`ProbabilityMetadata`] keeps the id-to-weight table together with the
//! exact running sum of all weights, an invariant every operation here
//! preserves.

use vstd::prelude::*;

use crate::prob_map::{
    empty_weights, enumerates, lemma_sum_empty, lemma_sum_insert, lemma_sum_nonneg,
    lemma_sum_remove, prob_entries, prob_map_entries, prob_map_insert, prob_map_new,
    prob_map_remove, sum_values, ProbMap,
};
use crate::corpus::Testcase;
use crate::observers::Observers;
use crate::schedulers::{RemovableScheduler, Scheduler};
use crate::state::CampaignState;
use crate::testcase_score::TestcaseScore;
use crate::{CorpusId, Error};

verus! {

/// A campaign-wide table of probability weights, one per corpus entry, with
/// the running total of all weights.
pub struct ProbabilityMetadata {
    /// corpus id (raw) -> probability weight
    pub map: ProbMap,
    /// total probability weight of all items in the map
    pub total_probability: u64,
}

impl ProbabilityMetadata {
    /// The stored association from raw corpus id to weight.
    pub open spec fn spec_map(self) -> Map<u64, u64> {
        prob_entries(self.map)
    }

    /// The running total is exactly the sum of the stored weights.
    pub open spec fn wf(self) -> bool {
        &&& self.spec_map().dom().finite()
        &&& self.total_probability == sum_values(self.spec_map())
    }

    pub fn new() -> (r: Self)
        ensures
            r.spec_map() == empty_weights(),
            r.total_probability == 0,
            r.wf(),
    {
        let r = ProbabilityMetadata { map: prob_map_new(), total_probability: 0 };
        proof {
            lemma_sum_empty();
            assert(empty_weights().dom() =~= Set::<u64>::empty());
        }
        r
    }
}

impl Default for ProbabilityMetadata {
    fn default() -> (r: Self)
        ensures
            r.spec_map() == empty_weights(),
            r.total_probability == 0,
            r.wf(),
    {
        Self::new()
    }
}

/// The raw ids stored in the corpus, as a set.
pub open spec fn corpus_key_set(corpus: crate::corpus::Corpus) -> Set<u64> {
    corpus.spec_ids().map_values(|id: CorpusId| id.0).to_set()
}

/// The weight table mirrors the corpus: every stored id carries a weight
/// and no weight belongs to a removed id. The engine preserves this by
/// pairing every corpus add, remove and replace with the matching scheduler
/// hook.
pub open spec fn prob_in_sync(state: CampaignState) -> bool {
    match state.probability_metadata {
        Some(meta) => meta.wf() && meta.spec_map().dom() == corpus_key_set(state.corpus),
        None => state.corpus.spec_ids().len() == 0,
    }
}

/// The sum of the first `n` weights of an enumeration of the table.
pub open spec fn spec_prefix_sum(entries: Seq<(u64, u64)>, n: int) -> int
    decreases n,
{
    if n <= 0 {
        0
    } else {
        spec_prefix_sum(entries, n - 1) + entries[n - 1].1
    }
}

/// The entry the sampling rule picks, scanning from position `k` with the
/// weight mass `acc` already accumulated: the first position whose running
/// mass reaches the threshold, or the last position if none does.
pub open spec fn spec_select(entries: Seq<(u64, u64)>, threshold: int, k: int, acc: int) -> int
    decreases entries.len() - k,
{
    if k < 0 || k >= entries.len() {
        entries.len() - 1
    } else if acc + entries[k].1 >= threshold {
        k
    } else {
        spec_select(entries, threshold, k + 1, acc + entries[k].1)
    }
}

/// The sampling threshold: the total weight scaled by a draw interpreted as
/// the fraction `draw53 / 2^53` of the unit interval.
pub open spec fn spec_threshold(total: u64, draw53: u64) -> int {
    (total * draw53) / 0x20000000000000
}

proof fn lemma_prefix_sum_nonneg(entries: Seq<(u64, u64)>, n: int)
    ensures
        spec_prefix_sum(entries, n) >= 0,
    decreases n,
{
    if n > 0 {
        lemma_prefix_sum_nonneg(entries, n - 1);
    }
}

/// Weights are non-negative, so the running mass only grows.
proof fn lemma_prefix_sum_monotone(entries: Seq<(u64, u64)>, a: int, b: int)
    requires
        a <= b,
    ensures
        spec_prefix_sum(entries, a) <= spec_prefix_sum(entries, b),
    decreases b - a,
{
    if a < b {
        lemma_prefix_sum_monotone(entries, a, b - 1);
    }
}

/// The running mass reads only the entries before `n`.
proof fn lemma_prefix_sum_congruence(a: Seq<(u64, u64)>, b: Seq<(u64, u64)>, n: int)
    requires
        forall|i: int| 0 <= i < n ==> a[i] == b[i],
    ensures
        spec_prefix_sum(a, n) == spec_prefix_sum(b, n),
    decreases n,
{
    if n > 0 {
        lemma_prefix_sum_congruence(a, b, n - 1);
    }
}

/// An enumeration of the table — every pair stored, no key twice — carries
/// exactly the table's total weight mass.
pub proof fn lemma_entries_sum(m: Map<u64, u64>, entries: Seq<(u64, u64)>)
    requires
        m.dom().finite(),
        entries.len() == m.dom().len(),
        forall|i: int|
            0 <= i < entries.len() ==> m.contains_pair((#[trigger] entries[i]).0, entries[i].1),
        forall|i: int, j: int| 0 <= i < j < entries.len() ==> entries[i].0 != entries[j].0,
    ensures
        spec_prefix_sum(entries, entries.len() as int) == sum_values(m),
    decreases entries.len(),
{
    if entries.len() == 0 {
        assert(m.dom().len() == 0);
        assert(sum_values(m) == 0);
    } else {
        let n = entries.len() as int;
        let e = entries[n - 1];
        let rest = entries.take(n - 1);
        let m2 = m.remove(e.0);
        assert(m.dom().contains(e.0));
        assert(m2.dom() =~= m.dom().remove(e.0));
        assert forall|i: int| 0 <= i < rest.len() implies m2.contains_pair(
            (#[trigger] rest[i]).0,
            rest[i].1,
        ) by {
            assert(rest[i] == entries[i]);
            assert(entries[i].0 != e.0);
        }
        assert forall|i: int, j: int| 0 <= i < j < rest.len() implies rest[i].0 != rest[j].0 by {
            assert(rest[i] == entries[i]);
            assert(rest[j] == entries[j]);
        }
        lemma_entries_sum(m2, rest);
        lemma_sum_remove(m, e.0);
        lemma_prefix_sum_congruence(entries, rest, n - 1);
        assert(m[e.0] == e.1);
        assert(spec_prefix_sum(entries, n) == spec_prefix_sum(entries, n - 1) + e.1);
    }
}

/// Scales the total weight by the fraction `draw / 2^64` of the unit
/// interval (using the draw's low 53 bits, as the engine's floating-point
/// draw would): the threshold is always strictly below a positive total.
pub fn compute_threshold(total: u64, draw: u64) -> (r: u64)
    ensures
        r == spec_threshold(total, draw & 0x1fffffffffffffu64),
        r <= total,
        total > 0 ==> r < total,
{
    let draw53 = draw & 0x1fffffffffffff;
    proof {
        assert((draw & 0x1fffffffffffffu64) < 0x20000000000000u64) by (bit_vector);
        assert((total as int) * (draw53 as int) <= (total as int) * 0x1fffffffffffff) by (
        nonlinear_arith)
            requires
                (draw53 as int) <= 0x1fffffffffffff,
                (total as int) >= 0,
        ;
        assert((total as int) * 0x1fffffffffffff < 0x200000000000000000000000000000) by (
        nonlinear_arith)
            requires
                (total as int) <= 0xffffffffffffffff,
        ;
        if total > 0 {
            assert((total as int) * (draw53 as int) / 0x20000000000000 < total as int) by (
            nonlinear_arith)
                requires
                    (total as int) >= 1,
                    0 <= (draw53 as int) < 0x20000000000000,
            ;
        }
        assert((total as int) * (draw53 as int) / 0x20000000000000 >= 0) by (nonlinear_arith)
            requires
                (total as int) >= 0,
                (draw53 as int) >= 0,
        ;
    }
    let num: u128 = (total as u128) * (draw53 as u128);
    let t: u128 = num / 0x20000000000000u128;
    t as u64
}

/// Walks an enumeration of the table accumulating weight mass and returns
/// the first position whose mass reaches the threshold — the last position
/// if none does, as the engine's floating-point fallback would.
pub fn select_by_threshold(entries: &Vec<(u64, u64)>, threshold: u64) -> (r: usize)
    requires
        entries@.len() >= 1,
        spec_prefix_sum(entries@, entries@.len() as int) <= u64::MAX,
    ensures
        r < entries@.len(),
        r == spec_select(entries@, threshold as int, 0, 0),
{
    let n = entries.len();
    let mut acc: u64 = 0;
    let mut i: usize = 0;
    while i < n
        invariant
            i <= n,
            n == entries@.len(),
            acc == spec_prefix_sum(entries@, i as int),
            spec_prefix_sum(entries@, n as int) <= u64::MAX,
            spec_select(entries@, threshold as int, 0, 0) == spec_select(
                entries@,
                threshold as int,
                i as int,
                acc as int,
            ),
        decreases n - i,
    {
        let v = entries[i].1;
        proof {
            lemma_prefix_sum_nonneg(entries@, i as int);
            lemma_prefix_sum_monotone(entries@, i as int + 1, n as int);
            assert(spec_prefix_sum(entries@, i as int + 1) == acc + v);
        }
        if acc + v >= threshold {
            proof {
                assert(spec_select(entries@, threshold as int, i as int, acc as int) == i);
            }
            return i;
        }
        acc = acc + v;
        i += 1;
    }
    proof {
        assert(spec_select(entries@, threshold as int, n as int, acc as int) == n - 1);
    }
    n - 1
}

/// Conducts probability sampling over all corpus entries: each one is
/// selected with probability proportional to the score that the policy `F`
/// assigned when it entered the corpus.
pub struct ProbabilitySamplingScheduler<F: TestcaseScore> {
    policy: core::marker::PhantomData<F>,
}

impl<F: TestcaseScore> ProbabilitySamplingScheduler<F> {
    /// Creates a new probability-sampling scheduler.
    pub fn new() -> Self {
        ProbabilitySamplingScheduler { policy: core::marker::PhantomData }
    }

    /// Computes the score of the testcase under `id` and stores it in the
    /// weight table, adding it to the running total. Fails with
    /// `InvariantViolation` — leaving the metadata untouched — when the
    /// total would leave the weight type's range.
    pub fn store_probability(&self, state: &mut CampaignState, id: CorpusId) -> (r: Result<
        (),
        Error,
    >)
        requires
            old(state).corpus.wf(),
            old(state).corpus.contains_id(id),
            old(state).probability_metadata matches Some(m) && m.wf() && !m.spec_map().dom().contains(id.0),
        ensures
            final(state).corpus == old(state).corpus,
            final(state).rand == old(state).rand,
            final(state).scheduler_metadata == old(state).scheduler_metadata,
            ({
                let m = old(state).probability_metadata.unwrap();
                let p = F::spec_compute(old(state).corpus.spec_get(id).unwrap());
                if m.total_probability + p <= u64::MAX {
                    &&& r == Ok::<(), Error>(())
                    &&& final(state).probability_metadata matches Some(pm)
                        && pm.spec_map() == m.spec_map().insert(id.0, p)
                        && pm.total_probability == m.total_probability + p
                        && pm.wf()
                } else {
                    r == Err::<(), Error>(Error::InvariantViolation) && *final(state) == *old(
                        state,
                    )
                }
            }),
    {
        let testcase = match state.corpus.get(id) {
            Ok(t) => *t,
            Err(e) => {
                return Err(e);
            },
        };
        let prob = match F::compute(state, &testcase) {
            Ok(p) => p,
            Err(e) => {
                return Err(e);
            },
        };
        match &mut state.probability_metadata {
            Some(meta) => {
                let ghost pre_map = meta.spec_map();
                match meta.total_probability.checked_add(prob) {
                    Some(new_total) => {
                        let _prev = prob_map_insert(&mut meta.map, id.0, prob);
                        meta.total_probability = new_total;
                        proof {
                            lemma_sum_insert(pre_map, id.0, prob);
                        }
                        Ok(())
                    },
                    None => Err(Error::InvariantViolation),
                }
            },
            None => Err(Error::KeyNotFound),
        }
    }
}

impl<F: TestcaseScore> Default for ProbabilitySamplingScheduler<F> {
    fn default() -> Self {
        Self::new()
    }
}

impl<F: TestcaseScore> RemovableScheduler for ProbabilitySamplingScheduler<F> {
    open spec fn on_remove_req(
        self,
        state: CampaignState,
        id: CorpusId,
        testcase: Option<Testcase>,
    ) -> bool {
        state.probability_metadata matches Some(m) && m.wf()
    }

    /// The removed id's weight leaves the table and the running total; an
    /// id without a stored weight is not an error and changes nothing.
    open spec fn on_remove_ens(
        pre: Self,
        post: Self,
        pre_state: CampaignState,
        post_state: CampaignState,
        id: CorpusId,
        testcase: Option<Testcase>,
        r: Result<(), Error>,
    ) -> bool {
        &&& post_state.corpus == pre_state.corpus
        &&& post_state.rand == pre_state.rand
        &&& post_state.scheduler_metadata == pre_state.scheduler_metadata
        &&& r == Ok::<(), Error>(())
        &&& match pre_state.probability_metadata {
            Some(m) => post_state.probability_metadata matches Some(pm) && pm.spec_map()
                == m.spec_map().remove(id.0) && pm.total_probability == m.total_probability - (
            if m.spec_map().dom().contains(id.0) {
                m.spec_map()[id.0]
            } else {
                0
            }) && pm.wf(),
            None => false,
        }
    }

    fn on_remove(&mut self, state: &mut CampaignState, id: CorpusId, testcase: &Option<Testcase>)
        -> (r: Result<(), Error>) {
        match &mut state.probability_metadata {
            Some(meta) => {
                let ghost pre_map = meta.spec_map();
                match prob_map_remove(&mut meta.map, id.0) {
                    Some(prob) => {
                        proof {
                            lemma_sum_remove(pre_map, id.0);
                            lemma_sum_nonneg(pre_map.remove(id.0));
                        }
                        meta.total_probability = meta.total_probability - prob;
                    },
                    None => {
                        proof {
                            assert(pre_map.remove(id.0) =~= pre_map);
                        }
                    },
                }
                Ok(())
            },
            None => Err(Error::KeyNotFound),
        }
    }

    open spec fn on_replace_req(self, state: CampaignState, id: CorpusId, prev: Testcase) -> bool {
        &&& state.corpus.wf()
        &&& state.corpus.contains_id(id)
        &&& state.probability_metadata matches Some(m) && m.wf()
    }

    /// The prior weight of `id` leaves the table, and `id` is re-scored
    /// exactly as a fresh add from the cleaned state would score it: the
    /// total afterwards is the cleaned total plus the fresh score.
    open spec fn on_replace_ens(
        pre: Self,
        post: Self,
        pre_state: CampaignState,
        post_state: CampaignState,
        id: CorpusId,
        prev: Testcase,
        r: Result<(), Error>,
    ) -> bool {
        &&& post_state.corpus == pre_state.corpus
        &&& post_state.rand == pre_state.rand
        &&& post_state.scheduler_metadata == pre_state.scheduler_metadata
        &&& match pre_state.probability_metadata {
            Some(m) => {
                let old_w = if m.spec_map().dom().contains(id.0) {
                    m.spec_map()[id.0]
                } else {
                    0
                };
                let removed_total = m.total_probability - old_w;
                let p = F::spec_compute(pre_state.corpus.spec_get(id).unwrap());
                if removed_total + p <= u64::MAX {
                    &&& r == Ok::<(), Error>(())
                    &&& post_state.probability_metadata matches Some(pm) && pm.spec_map()
                        == m.spec_map().insert(id.0, p) && pm.total_probability == removed_total
                        + p && pm.wf()
                } else {
                    &&& r == Err::<(), Error>(Error::InvariantViolation)
                    &&& post_state.probability_metadata matches Some(pm) && pm.spec_map()
                        == m.spec_map().remove(id.0) && pm.total_probability == removed_total
                        && pm.wf()
                }
            },
            None => false,
        }
    }

    fn on_replace(&mut self, state: &mut CampaignState, id: CorpusId, prev: &Testcase) -> (r:
        Result<(), Error>) {
        let ghost pre_meta = state.probability_metadata.unwrap();
        match &mut state.probability_metadata {
            Some(meta) => {
                let ghost pre_map = meta.spec_map();
                match prob_map_remove(&mut meta.map, id.0) {
                    Some(prob) => {
                        proof {
                            lemma_sum_remove(pre_map, id.0);
                            lemma_sum_nonneg(pre_map.remove(id.0));
                        }
                        meta.total_probability = meta.total_probability - prob;
                    },
                    None => {
                        proof {
                            assert(pre_map.remove(id.0) =~= pre_map);
                        }
                    },
                }
            },
            None => {
                return Err(Error::KeyNotFound);
            },
        }
        let r = self.store_probability(state, id);
        proof {
            let p = F::spec_compute(old(state).corpus.spec_get(id).unwrap());
            assert(pre_meta.spec_map().remove(id.0).insert(id.0, p) =~= pre_meta.spec_map().insert(
                id.0,
                p,
            ));
        }
        r
    }
}

impl<F: TestcaseScore> Scheduler for ProbabilitySamplingScheduler<F> {
    open spec fn on_add_req(self, state: CampaignState, id: CorpusId) -> bool {
        &&& state.corpus.wf()
        &&& state.corpus.contains_id(id)
        &&& match state.probability_metadata {
            Some(m) => m.wf() && !m.spec_map().dom().contains(id.0),
            None => true,
        }
    }

    /// Adding links the new testcase to the currently scheduled one,
    /// creates the weight table on first use, and stores the testcase's
    /// score: the table gains the id's weight and the running total grows
    /// by exactly that weight.
    open spec fn on_add_ens(
        pre: Self,
        post: Self,
        pre_state: CampaignState,
        post_state: CampaignState,
        id: CorpusId,
        r: Result<(), Error>,
    ) -> bool {
        &&& post_state.rand == pre_state.rand
        &&& post_state.scheduler_metadata == pre_state.scheduler_metadata
        &&& post_state.corpus.wf()
        &&& post_state.corpus.spec_ids() == pre_state.corpus.spec_ids()
        &&& post_state.corpus.spec_current() == pre_state.corpus.spec_current()
        &&& post_state.corpus.spec_next_id() == pre_state.corpus.spec_next_id()
        &&& post_state.corpus.spec_get(id) == Some(
            Testcase {
                parent_id: pre_state.corpus.spec_current(),
                ..pre_state.corpus.spec_get(id).unwrap()
            },
        )
        &&& forall|other: CorpusId|
            other != id ==> post_state.corpus.spec_get(other) == pre_state.corpus.spec_get(other)
        &&& ({
            let pre_map = match pre_state.probability_metadata {
                Some(m) => m.spec_map(),
                None => empty_weights(),
            };
            let pre_total = match pre_state.probability_metadata {
                Some(m) => m.total_probability as int,
                None => 0int,
            };
            let p = F::spec_compute(
                Testcase {
                    parent_id: pre_state.corpus.spec_current(),
                    ..pre_state.corpus.spec_get(id).unwrap()
                },
            );
            if pre_total + p <= u64::MAX {
                &&& r == Ok::<(), Error>(())
                &&& post_state.probability_metadata matches Some(pm) && pm.spec_map()
                    == pre_map.insert(id.0, p) && pm.total_probability == pre_total + p
                    && pm.wf()
            } else {
                &&& r == Err::<(), Error>(Error::InvariantViolation)
                &&& post_state.probability_metadata == pre_state.probability_metadata
            }
        })
    }

    fn on_add(&mut self, state: &mut CampaignState, id: CorpusId) -> (r: Result<(), Error>) {
        let current_id = state.corpus.current();
        match state.corpus.set_parent(id, current_id) {
            Ok(()) => {},
            Err(e) => {
                return Err(e);
            },
        }
        if state.probability_metadata.is_none() {
            state.probability_metadata = Some(ProbabilityMetadata::new());
        }
        self.store_probability(state, id)
    }

    open spec fn on_evaluation_req(self, state: CampaignState, observers: Observers) -> bool {
        true
    }

    /// The probability scheduler keeps no per-evaluation statistics:
    /// `on_evaluation` is a no-op.
    open spec fn on_evaluation_ens(
        pre: Self,
        post: Self,
        pre_state: CampaignState,
        post_state: CampaignState,
        observers: Observers,
        r: Result<(), Error>,
    ) -> bool {
        post_state == pre_state && r == Ok::<(), Error>(())
    }

    fn on_evaluation(&mut self, state: &mut CampaignState, observers: &Observers) -> (r: Result<
        (),
        Error,
    >) {
        Ok(())
    }

    open spec fn next_req(self, state: CampaignState) -> bool {
        state.corpus.wf() && prob_in_sync(state)
    }

    /// On a non-empty corpus, `next` draws a threshold from the generator
    /// and hands back the id that the threshold rule picks from some
    /// enumeration of the weight table — hence an id that carries a weight
    /// and is still stored in the corpus, never a removed one — recording
    /// it as current. `Empty` exactly on an empty corpus.
    open spec fn next_ens(
        pre: Self,
        post: Self,
        pre_state: CampaignState,
        post_state: CampaignState,
        r: Result<CorpusId, Error>,
    ) -> bool {
        &&& post_state.scheduler_metadata == pre_state.scheduler_metadata
        &&& post_state.probability_metadata == pre_state.probability_metadata
        &&& post_state.corpus.spec_entries() == pre_state.corpus.spec_entries()
        &&& post_state.corpus.spec_next_id() == pre_state.corpus.spec_next_id()
        &&& post_state.corpus.wf()
        &&& if pre_state.corpus.spec_ids().len() == 0 {
            r == Err::<CorpusId, Error>(Error::Empty) && post_state == pre_state
        } else {
            match r {
                Ok(id) => {
                    &&& pre_state.corpus.contains_id(id)
                    &&& pre_state.probability_metadata.unwrap().spec_map().dom().contains(id.0)
                    &&& post_state.corpus.spec_current() == Some(id)
                    &&& exists|entries: Seq<(u64, u64)>, draw53: u64|
                        #![trigger enumerates(
                            pre_state.probability_metadata.unwrap().spec_map(),
                            entries,
                        ), spec_threshold(
                            pre_state.probability_metadata.unwrap().total_probability,
                            draw53,
                        )]
                        {
                            &&& enumerates(
                                pre_state.probability_metadata.unwrap().spec_map(),
                                entries,
                            )
                            &&& draw53 < 0x20000000000000
                            &&& id == CorpusId(
                                entries[spec_select(
                                    entries,
                                    spec_threshold(
                                        pre_state.probability_metadata.unwrap().total_probability,
                                        draw53,
                                    ),
                                    0,
                                    0,
                                )].0,
                            )
                        }
                },
                Err(_) => false,
            }
        }
    }

    fn next(&mut self, state: &mut CampaignState) -> (r: Result<CorpusId, Error>) {
        if state.corpus.count() == 0 {
            return Err(Error::Empty);
        }
        let draw = crate::rands::rand_next(&mut state.rand);
        let id = {
            match &state.probability_metadata {
                Some(meta) => {
                    let ghost m = meta.spec_map();
                    proof {
                        let ids = state.corpus.spec_ids();
                        let kseq = ids.map_values(|cid: CorpusId| cid.0);
                        assert(kseq[0] == ids[0].0);
                        assert(kseq.contains(ids[0].0));
                        assert(m.dom().contains(ids[0].0));
                        if m.dom().len() == 0 {
                            m.dom().lemma_len0_is_empty();
                        }
                    }
                    let entries = prob_map_entries(&meta.map);
                    proof {
                        lemma_entries_sum(m, entries@);
                    }
                    let threshold = compute_threshold(meta.total_probability, draw);
                    let index = select_by_threshold(&entries, threshold);
                    let key = entries[index].0;
                    proof {
                        assert((draw & 0x1fffffffffffffu64) < 0x20000000000000u64) by (bit_vector);
                        let d53 = draw & 0x1fffffffffffffu64;
                        let picked = spec_select(
                            entries@,
                            spec_threshold(meta.total_probability, d53),
                            0,
                            0,
                        );
                        assert(enumerates(old(state).probability_metadata.unwrap().spec_map(), entries@));
                        assert(CorpusId(key) == CorpusId(entries@[picked].0));
                        assert(m.contains_pair(
                            entries@[index as int].0,
                            entries@[index as int].1,
                        ));
                        let ids = state.corpus.spec_ids();
                        let kseq = ids.map_values(|cid: CorpusId| cid.0);
                        assert(kseq.contains(key));
                        let i = choose|i: int| 0 <= i < kseq.len() && kseq[i] == key;
                        assert(ids[i].0 == key);
                        assert(ids.contains(CorpusId(key))) by {
                            assert(ids[i] == CorpusId(key));
                        }
                    }
                    CorpusId(key)
                },
                None => {
                    return Err(Error::KeyNotFound);
                },
            }
        };
        match self.set_current_scheduled(state, Some(id)) {
            Ok(()) => Ok(id),
            Err(e) => Err(e),
        }
    }
}

/// Probability sampling is deterministic: the selected position depends
/// only on the enumerated weight table and the drawn threshold — two
/// campaigns whose generators produce the same draws over the same tables
/// select the same entries.
pub proof fn lemma_sampling_deterministic(
    entries1: Seq<(u64, u64)>,
    threshold1: int,
    entries2: Seq<(u64, u64)>,
    threshold2: int,
)
    requires
        entries1 == entries2,
        threshold1 == threshold2,
    ensures
        spec_select(entries1, threshold1, 0, 0) == spec_select(entries2, threshold2, 0, 0),
{
}

/// Replacing preserves totals: after the prior weight of an id has been
/// removed, storing a fresh score gives exactly the table and the total
/// that a fresh add from the cleaned state would give.
pub proof fn lemma_replace_preserves_total(m: Map<u64, u64>, id: u64, p: u64)
    requires
        m.dom().finite(),
    ensures
        sum_values(m.remove(id).insert(id, p)) == sum_values(m.remove(id)) + p,
        m.remove(id).insert(id, p) =~= m.insert(id, p),
{
    lemma_sum_insert(m.remove(id), id, p);
}

} // verus!
