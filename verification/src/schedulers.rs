//! The corpus schedulers: how the fuzzer requests the next testcase.
//!
//! Every scheduler implements the common [`Scheduler`] contract (hooks for
//! corpus additions, post-execution bookkeeping, and selection). The
//! AFL-style bookkeeping hooks — parent depth, handicap aging, and the
//! campaign-wide coverage-hash frequency table — live in [`AflScheduler`].

use vstd::prelude::*;

use crate::corpus::{SchedulerTestcaseMetadata, Testcase};
use crate::hashing::hash_of;
use crate::observers::{spec_lookup, Observers};
use crate::rands::rand_below;
use crate::state::CampaignState;
use crate::{CorpusId, Error};

verus! {

/// Campaign-wide frequency table of the AFL-style schedulers: one
/// saturating counter per coverage-hash bucket. Its length is fixed at
/// construction and never changes.
pub struct SchedulerMetadata {
    n_fuzz: Vec<u32>,
}

impl SchedulerMetadata {
    /// The frequency counters, one per hash bucket.
    pub closed spec fn spec_n_fuzz(self) -> Seq<u32> {
        self.n_fuzz@
    }

    /// A counter one step further, stopping at the counter type's maximum.
    pub open spec fn spec_saturating_inc(v: u32) -> u32 {
        if v == u32::MAX {
            v
        } else {
            (v + 1) as u32
        }
    }

    /// The table after one visit of `bucket`.
    pub open spec fn spec_bump(s: Seq<u32>, bucket: int) -> Seq<u32> {
        s.update(bucket, Self::spec_saturating_inc(s[bucket]))
    }

    /// A fresh table of `n_fuzz_size` zeroed counters.
    pub fn new(n_fuzz_size: usize) -> (r: Self)
        requires
            n_fuzz_size >= 1,
        ensures
            r.spec_n_fuzz() == Seq::new(n_fuzz_size as nat, |i: int| 0u32),
    {
        let mut v: Vec<u32> = Vec::new();
        let mut i: usize = 0;
        while i < n_fuzz_size
            invariant
                i <= n_fuzz_size,
                v@ == Seq::new(i as nat, |j: int| 0u32),
            decreases n_fuzz_size - i,
        {
            v.push(0);
            assert(v@ =~= Seq::new((i + 1) as nat, |j: int| 0u32));
            i += 1;
        }
        assert(v@ =~= Seq::new(n_fuzz_size as nat, |j: int| 0u32));
        SchedulerMetadata { n_fuzz: v }
    }

    /// Restores a table from persisted counters.
    pub fn with_n_fuzz(n_fuzz: Vec<u32>) -> (r: Self)
        requires
            n_fuzz@.len() >= 1,
        ensures
            r.spec_n_fuzz() == n_fuzz@,
    {
        SchedulerMetadata { n_fuzz }
    }

    pub fn n_fuzz(&self) -> (r: &Vec<u32>)
        ensures
            r@ == self.spec_n_fuzz(),
    {
        &self.n_fuzz
    }

    /// Saturating-increments the counter of `bucket`: the count never wraps,
    /// and no counter ever decreases.
    pub fn bump(&mut self, bucket: usize)
        requires
            bucket < old(self).spec_n_fuzz().len(),
        ensures
            final(self).spec_n_fuzz() == Self::spec_bump(
                old(self).spec_n_fuzz(),
                bucket as int,
            ),
            final(self).spec_n_fuzz().len() == old(self).spec_n_fuzz().len(),
            forall|i: int|
                0 <= i < old(self).spec_n_fuzz().len() ==> final(self).spec_n_fuzz()[i]
                    >= old(self).spec_n_fuzz()[i],
    {
        let v = self.n_fuzz[bucket];
        self.n_fuzz.set(bucket, v.saturating_add(1));
    }
}

/// The depth the currently scheduled testcase hands to a child: its own
/// stored depth, or zero when nothing is scheduled. Fails when the current
/// testcase is gone or carries no scheduling metadata.
pub open spec fn parent_depth(state: CampaignState) -> Result<u32, Error> {
    match state.corpus.spec_current() {
        None => Ok(0u32),
        Some(pid) => match state.corpus.spec_get(pid) {
            None => Err(Error::KeyNotFound),
            Some(tc) => match tc.scheduler_metadata {
                None => Err(Error::KeyNotFound),
                Some(m) => Ok(m.depth),
            },
        },
    }
}

/// A handicap one aging step later: five or more drops by four, a positive
/// remainder drops by one, zero stays.
pub open spec fn spec_handicap_aged(h: u32) -> u32 {
    if h >= 4 {
        (h - 4) as u32
    } else if h > 0 {
        (h - 1) as u32
    } else {
        h
    }
}

/// The common metadata operations of the AFL-style schedulers, invoked by
/// the engine when a testcase is added, after every evaluation, and on
/// selection.
pub trait AflScheduler: Sized {
    /// The bucket of the last observed coverage-map hash.
    spec fn spec_last_hash(self) -> usize;

    fn last_hash(&self) -> (r: usize)
        ensures
            r == self.spec_last_hash(),
    ;

    fn set_last_hash(&mut self, value: usize)
        ensures
            final(self).spec_last_hash() == value,
    ;

    /// The name of the map observer this scheduler reads.
    spec fn spec_map_observer_name(self) -> Seq<char>;

    fn map_observer_name(&self) -> (r: &String)
        ensures
            r@ == self.spec_map_observer_name(),
    ;

    /// When `on_add_metadata` may be called.
    spec fn on_add_metadata_req(self, state: CampaignState, id: CorpusId) -> bool;

    /// What `on_add_metadata` does.
    spec fn on_add_metadata_ens(
        self,
        pre_state: CampaignState,
        post_state: CampaignState,
        id: CorpusId,
        r: Result<(), Error>,
    ) -> bool;

    /// Called when a testcase has been added to the corpus: attaches
    /// scheduling metadata (depth one past the parent's, fresh handicap, the
    /// last hash bucket) and links the parent.
    fn on_add_metadata(&self, state: &mut CampaignState, id: CorpusId) -> (r: Result<(), Error>)
        requires
            self.on_add_metadata_req(*old(state), id),
        ensures
            self.on_add_metadata_ens(*old(state), *final(state), id, r),
    ;

    /// When `on_evaluation_metadata` may be called.
    spec fn on_evaluation_metadata_req(self, state: CampaignState, observers: Observers) -> bool;

    /// What `on_evaluation_metadata` does.
    spec fn on_evaluation_metadata_ens(
        pre: Self,
        post: Self,
        pre_state: CampaignState,
        post_state: CampaignState,
        observers: Observers,
        r: Result<(), Error>,
    ) -> bool;

    /// Called after every evaluation: hashes the map observer, bumps the
    /// visited bucket's saturating counter, and remembers the bucket.
    fn on_evaluation_metadata(&mut self, state: &mut CampaignState, observers: &Observers) -> (r:
        Result<(), Error>)
        requires
            old(self).on_evaluation_metadata_req(*old(state), *observers),
        ensures
            Self::on_evaluation_metadata_ens(
                *old(self),
                *final(self),
                *old(state),
                *final(state),
                *observers,
                r,
            ),
    ;

    /// When `on_next_metadata` may be called.
    spec fn on_next_metadata_req(self, state: CampaignState) -> bool;

    /// What `on_next_metadata` does.
    spec fn on_next_metadata_ens(
        self,
        pre_state: CampaignState,
        post_state: CampaignState,
        next_id: Option<CorpusId>,
        r: Result<(), Error>,
    ) -> bool;

    /// Called on selection: ages the currently scheduled testcase's
    /// handicap one step.
    fn on_next_metadata(&mut self, state: &mut CampaignState, next_id: Option<CorpusId>) -> (r:
        Result<(), Error>)
        requires
            old(self).on_next_metadata_req(*old(state)),
        ensures
            *final(self) == *old(self),
            old(self).on_next_metadata_ens(*old(state), *final(state), next_id, r),
    ;
}

/// Schedulers that maintain internal tables implement this as well, so the
/// engine can keep those tables consistent when corpus entries are removed
/// or replaced.
pub trait RemovableScheduler: Sized {
    /// When `on_remove` may be called.
    spec fn on_remove_req(
        self,
        state: CampaignState,
        id: CorpusId,
        testcase: Option<Testcase>,
    ) -> bool;

    /// What `on_remove` does.
    spec fn on_remove_ens(
        pre: Self,
        post: Self,
        pre_state: CampaignState,
        post_state: CampaignState,
        id: CorpusId,
        testcase: Option<Testcase>,
        r: Result<(), Error>,
    ) -> bool;

    /// Called after the entry under `id` left the corpus. The removed
    /// testcase is passed along when the engine still has it.
    fn on_remove(&mut self, state: &mut CampaignState, id: CorpusId, testcase: &Option<Testcase>)
        -> (r: Result<(), Error>)
        requires
            old(self).on_remove_req(*old(state), id, *testcase),
        ensures
            Self::on_remove_ens(
                *old(self),
                *final(self),
                *old(state),
                *final(state),
                id,
                *testcase,
                r,
            ),
    ;

    /// When `on_replace` may be called.
    spec fn on_replace_req(self, state: CampaignState, id: CorpusId, prev: Testcase) -> bool;

    /// What `on_replace` does.
    spec fn on_replace_ens(
        pre: Self,
        post: Self,
        pre_state: CampaignState,
        post_state: CampaignState,
        id: CorpusId,
        prev: Testcase,
        r: Result<(), Error>,
    ) -> bool;

    /// Called after the entry under `id` was replaced; `prev` is the prior
    /// testcase.
    fn on_replace(&mut self, state: &mut CampaignState, id: CorpusId, prev: &Testcase) -> (r:
        Result<(), Error>)
        requires
            old(self).on_replace_req(*old(state), id, *prev),
        ensures
            Self::on_replace_ens(
                *old(self),
                *final(self),
                *old(state),
                *final(state),
                id,
                *prev,
                r,
            ),
    ;
}

/// Schedulers that cycle through the whole corpus expose how many full
/// cycles they have completed.
pub trait HasQueueCycles: Sized {
    spec fn spec_queue_cycles(self) -> u64;

    /// The number of completed queue cycles.
    fn queue_cycles(&self) -> (r: u64)
        ensures
            r == self.spec_queue_cycles(),
    ;
}

/// The scheduler contract: how the fuzzer requests a testcase from the
/// corpus, with hooks for corpus additions and post-execution bookkeeping.
/// Each implementation pins its exact behaviour down in its `..._req` and
/// `..._ens` specification functions.
pub trait Scheduler: Sized {
    /// When `on_add` may be called.
    spec fn on_add_req(self, state: CampaignState, id: CorpusId) -> bool;

    /// What `on_add` does.
    spec fn on_add_ens(
        pre: Self,
        post: Self,
        pre_state: CampaignState,
        post_state: CampaignState,
        id: CorpusId,
        r: Result<(), Error>,
    ) -> bool;

    /// Called when a testcase has been stored in the corpus under `id`.
    fn on_add(&mut self, state: &mut CampaignState, id: CorpusId) -> (r: Result<(), Error>)
        requires
            old(self).on_add_req(*old(state), id),
        ensures
            Self::on_add_ens(*old(self), *final(self), *old(state), *final(state), id, r),
    ;

    /// When `on_evaluation` may be called.
    spec fn on_evaluation_req(self, state: CampaignState, observers: Observers) -> bool;

    /// What `on_evaluation` does.
    spec fn on_evaluation_ens(
        pre: Self,
        post: Self,
        pre_state: CampaignState,
        post_state: CampaignState,
        observers: Observers,
        r: Result<(), Error>,
    ) -> bool;

    /// Called after every execution, whether or not the input is retained.
    fn on_evaluation(&mut self, state: &mut CampaignState, observers: &Observers) -> (r: Result<
        (),
        Error,
    >)
        requires
            old(self).on_evaluation_req(*old(state), *observers),
        ensures
            Self::on_evaluation_ens(
                *old(self),
                *final(self),
                *old(state),
                *final(state),
                *observers,
                r,
            ),
    ;

    /// When `next` may be called.
    spec fn next_req(self, state: CampaignState) -> bool;

    /// What `next` returns: always an id that is in the corpus, recorded as
    /// the current one; `Empty` exactly on an empty corpus.
    spec fn next_ens(
        pre: Self,
        post: Self,
        pre_state: CampaignState,
        post_state: CampaignState,
        r: Result<CorpusId, Error>,
    ) -> bool;

    /// Selects the next testcase to fuzz and records it as current.
    fn next(&mut self, state: &mut CampaignState) -> (r: Result<CorpusId, Error>)
        requires
            old(self).next_req(*old(state)),
        ensures
            Self::next_ens(*old(self), *final(self), *old(state), *final(state), r),
    ;

    /// Records `next_id` as the currently scheduled id, touching nothing
    /// else.
    fn set_current_scheduled(&mut self, state: &mut CampaignState, next_id: Option<CorpusId>)
        -> (r: Result<(), Error>)
        ensures
            r == Ok::<(), Error>(()),
            *final(self) == *old(self),
            final(state).corpus.spec_entries() == old(state).corpus.spec_entries(),
            final(state).corpus.spec_current() == next_id,
            final(state).corpus.spec_next_id() == old(state).corpus.spec_next_id(),
            final(state).rand == old(state).rand,
            final(state).scheduler_metadata == old(state).scheduler_metadata,
            final(state).probability_metadata == old(state).probability_metadata,
    {
        state.corpus.set_current(next_id);
        Ok(())
    }
}

/// Feeds the fuzzer a uniformly random corpus entry on every request.
#[derive(Clone, Copy, Debug, PartialEq, Eq, Structural)]
pub struct RandScheduler;

impl RandScheduler {
    /// Creates a new `RandScheduler` that just schedules randomly.
    pub fn new() -> (r: Self)
        ensures
            r == RandScheduler,
    {
        RandScheduler
    }
}

impl Default for RandScheduler {
    fn default() -> (r: Self)
        ensures
            r == RandScheduler,
    {
        RandScheduler
    }
}

impl Scheduler for RandScheduler {
    open spec fn on_add_req(self, state: CampaignState, id: CorpusId) -> bool {
        state.corpus.wf()
    }

    /// `on_add` only links the new testcase to the currently scheduled one.
    open spec fn on_add_ens(
        pre: Self,
        post: Self,
        pre_state: CampaignState,
        post_state: CampaignState,
        id: CorpusId,
        r: Result<(), Error>,
    ) -> bool {
        &&& post == pre
        &&& post_state.rand == pre_state.rand
        &&& post_state.scheduler_metadata == pre_state.scheduler_metadata
        &&& post_state.probability_metadata == pre_state.probability_metadata
        &&& post_state.corpus.wf()
        &&& post_state.corpus.spec_ids() == pre_state.corpus.spec_ids()
        &&& post_state.corpus.spec_current() == pre_state.corpus.spec_current()
        &&& post_state.corpus.spec_next_id() == pre_state.corpus.spec_next_id()
        &&& if pre_state.corpus.contains_id(id) {
            &&& r == Ok::<(), Error>(())
            &&& post_state.corpus.spec_get(id) == Some(
                Testcase {
                    parent_id: pre_state.corpus.spec_current(),
                    ..pre_state.corpus.spec_get(id).unwrap()
                },
            )
            &&& forall|other: CorpusId|
                other != id ==> post_state.corpus.spec_get(other) == pre_state.corpus.spec_get(
                    other,
                )
        } else {
            r == Err::<(), Error>(Error::KeyNotFound) && post_state == pre_state
        }
    }

    fn on_add(&mut self, state: &mut CampaignState, id: CorpusId) -> (r: Result<(), Error>) {
        let current_id = state.corpus.current();
        match state.corpus.set_parent(id, current_id) {
            Ok(()) => Ok(()),
            Err(e) => Err(e),
        }
    }

    open spec fn on_evaluation_req(self, state: CampaignState, observers: Observers) -> bool {
        true
    }

    /// The random scheduler keeps no statistics: `on_evaluation` is a no-op.
    open spec fn on_evaluation_ens(
        pre: Self,
        post: Self,
        pre_state: CampaignState,
        post_state: CampaignState,
        observers: Observers,
        r: Result<(), Error>,
    ) -> bool {
        post == pre && post_state == pre_state && r == Ok::<(), Error>(())
    }

    fn on_evaluation(&mut self, state: &mut CampaignState, observers: &Observers) -> (r: Result<
        (),
        Error,
    >) {
        Ok(())
    }

    open spec fn next_req(self, state: CampaignState) -> bool {
        state.corpus.wf()
    }

    /// On a non-empty corpus, `next` returns some stored id — whatever the
    /// generator drew — and records it as current; on an empty corpus it
    /// fails with `Empty` and changes nothing.
    open spec fn next_ens(
        pre: Self,
        post: Self,
        pre_state: CampaignState,
        post_state: CampaignState,
        r: Result<CorpusId, Error>,
    ) -> bool {
        &&& post == pre
        &&& post_state.scheduler_metadata == pre_state.scheduler_metadata
        &&& post_state.probability_metadata == pre_state.probability_metadata
        &&& post_state.corpus.spec_entries() == pre_state.corpus.spec_entries()
        &&& post_state.corpus.spec_next_id() == pre_state.corpus.spec_next_id()
        &&& post_state.corpus.wf()
        &&& if pre_state.corpus.spec_ids().len() == 0 {
            r == Err::<CorpusId, Error>(Error::Empty) && post_state == pre_state
        } else {
            match r {
                Ok(id) => pre_state.corpus.contains_id(id) && post_state.corpus.spec_current()
                    == Some(id),
                Err(_) => false,
            }
        }
    }

    fn next(&mut self, state: &mut CampaignState) -> (r: Result<CorpusId, Error>) {
        if state.corpus.count() == 0 {
            Err(Error::Empty)
        } else {
            let count = state.corpus.count();
            let index = rand_below(&mut state.rand, count);
            let id = state.corpus.id_at(index);
            proof {
                assert(state.corpus.spec_ids().contains(id)) by {
                    assert(state.corpus.spec_ids()[index as int] == id);
                }
            }
            match self.set_current_scheduled(state, Some(id)) {
                Ok(()) => Ok(id),
                Err(e) => Err(e),
            }
        }
    }
}

/// The first position at or after `k` whose id exceeds `c`, or the length
/// of the sequence if there is none.
pub open spec fn first_greater_from(ids: Seq<CorpusId>, c: u64, k: int) -> int
    decreases ids.len() - k,
{
    if k < 0 || k >= ids.len() {
        ids.len() as int
    } else if ids[k].0 > c {
        k
    } else {
        first_greater_from(ids, c, k + 1)
    }
}

/// If no id before position `k` exceeds `c`, scanning from the start finds
/// the same position as scanning from `k`.
proof fn lemma_first_greater_skip(ids: Seq<CorpusId>, c: u64, k: int)
    requires
        0 <= k <= ids.len(),
        forall|j: int| 0 <= j < k ==> (#[trigger] ids[j]).0 <= c,
    ensures
        first_greater_from(ids, c, 0) == first_greater_from(ids, c, k),
    decreases k,
{
    if k > 0 {
        lemma_first_greater_skip(ids, c, k - 1);
    }
}

/// The position the queue selects next: the first id past the current one,
/// wrapping to the front when the current one was the last.
pub open spec fn queue_pos(ids: Seq<CorpusId>, current: Option<CorpusId>) -> int {
    match current {
        None => 0,
        Some(c) => if first_greater_from(ids, c.0, 0) == ids.len() {
            0
        } else {
            first_greater_from(ids, c.0, 0)
        },
    }
}

/// Whether the queue selection wrapped around to the front.
pub open spec fn queue_wrapped(ids: Seq<CorpusId>, current: Option<CorpusId>) -> bool {
    match current {
        None => false,
        Some(c) => first_greater_from(ids, c.0, 0) == ids.len(),
    }
}

/// Queue scheduling is deterministic: what the queue selects, and whether
/// the selection wraps, depends only on the stored ids and the currently
/// scheduled one — two campaigns that agree on those agree on the
/// selection.
pub proof fn lemma_queue_selection_deterministic(
    ids1: Seq<CorpusId>,
    cur1: Option<CorpusId>,
    ids2: Seq<CorpusId>,
    cur2: Option<CorpusId>,
)
    requires
        ids1 == ids2,
        cur1 == cur2,
    ensures
        queue_pos(ids1, cur1) == queue_pos(ids2, cur2),
        queue_wrapped(ids1, cur1) == queue_wrapped(ids2, cur2),
{
}

/// Cycles through the corpus in insertion order, while keeping the
/// AFL-style bookkeeping of [`AflScheduler`]: depth and handicap on every
/// testcase, and the campaign-wide coverage-hash frequency table.
pub struct QueueScheduler {
    queue_cycles: u64,
    last_hash: usize,
    map_observer_name: String,
}

impl QueueScheduler {
    /// Creates a queue scheduler that reads the map observer of the given
    /// name.
    pub fn new(map_observer_name: &str) -> (r: Self)
        ensures
            r.spec_queue_cycles() == 0,
            r.spec_last_hash() == 0,
            r.spec_map_observer_name() == map_observer_name@,
    {
        QueueScheduler {
            queue_cycles: 0,
            last_hash: 0,
            map_observer_name: map_observer_name.to_string(),
        }
    }
}

impl HasQueueCycles for QueueScheduler {
    closed spec fn spec_queue_cycles(self) -> u64 {
        self.queue_cycles
    }

    fn queue_cycles(&self) -> u64 {
        self.queue_cycles
    }
}

impl AflScheduler for QueueScheduler {
    closed spec fn spec_last_hash(self) -> usize {
        self.last_hash
    }

    fn last_hash(&self) -> usize {
        self.last_hash
    }

    fn set_last_hash(&mut self, value: usize) {
        self.last_hash = value;
    }

    closed spec fn spec_map_observer_name(self) -> Seq<char> {
        self.map_observer_name@
    }

    fn map_observer_name(&self) -> &String {
        &self.map_observer_name
    }

    open spec fn on_add_metadata_req(self, state: CampaignState, id: CorpusId) -> bool {
        &&& state.corpus.wf()
        &&& (parent_depth(state) matches Ok(d) ==> d < u32::MAX)
    }

    /// The new testcase gets depth one past its parent's (one, for a root),
    /// a zero handicap, the last hash bucket, and the parent link; nothing
    /// else changes. Fails with `KeyNotFound` — leaving the state untouched
    /// — when the parent's metadata or the new id cannot be found.
    open spec fn on_add_metadata_ens(
        self,
        pre_state: CampaignState,
        post_state: CampaignState,
        id: CorpusId,
        r: Result<(), Error>,
    ) -> bool {
        &&& post_state.rand == pre_state.rand
        &&& post_state.scheduler_metadata == pre_state.scheduler_metadata
        &&& post_state.probability_metadata == pre_state.probability_metadata
        &&& post_state.corpus.wf()
        &&& post_state.corpus.spec_ids() == pre_state.corpus.spec_ids()
        &&& post_state.corpus.spec_current() == pre_state.corpus.spec_current()
        &&& post_state.corpus.spec_next_id() == pre_state.corpus.spec_next_id()
        &&& match parent_depth(pre_state) {
            Err(e) => r == Err::<(), Error>(e) && post_state == pre_state,
            Ok(d) => if pre_state.corpus.contains_id(id) {
                &&& r == Ok::<(), Error>(())
                &&& post_state.corpus.spec_get(id) == Some(
                    Testcase {
                        parent_id: pre_state.corpus.spec_current(),
                        scheduler_metadata: Some(
                            SchedulerTestcaseMetadata {
                                depth: (d + 1) as u32,
                                handicap: 0,
                                n_fuzz_entry: self.spec_last_hash(),
                            },
                        ),
                        ..pre_state.corpus.spec_get(id).unwrap()
                    },
                )
                &&& forall|other: CorpusId|
                    other != id ==> post_state.corpus.spec_get(other)
                        == pre_state.corpus.spec_get(other)
            } else {
                r == Err::<(), Error>(Error::KeyNotFound) && post_state == pre_state
            },
        }
    }

    fn on_add_metadata(&self, state: &mut CampaignState, id: CorpusId) -> (r: Result<(), Error>) {
        let current_id = state.corpus.current();
        let depth: u32 = match current_id {
            Some(pid) => {
                let parent = match state.corpus.get(pid) {
                    Ok(t) => *t,
                    Err(e) => {
                        return Err(e);
                    },
                };
                match parent.scheduler_metadata() {
                    Ok(m) => m.depth(),
                    Err(e) => {
                        return Err(e);
                    },
                }
            },
            None => 0,
        };
        let metadata = SchedulerTestcaseMetadata::with_n_fuzz_entry(depth + 1, self.last_hash());
        match state.corpus.set_scheduler_metadata(id, metadata) {
            Ok(()) => {},
            Err(e) => {
                return Err(e);
            },
        }
        match state.corpus.set_parent(id, current_id) {
            Ok(()) => Ok(()),
            Err(e) => Err(e),
        }
    }

    open spec fn on_evaluation_metadata_req(self, state: CampaignState, observers: Observers)
        -> bool {
        match state.scheduler_metadata {
            Some(m) => m.spec_n_fuzz().len() >= 1,
            None => true,
        }
    }

    /// The bucket the observed map hashes into — its digest reduced modulo
    /// the table length — is bumped by one, saturating; no counter
    /// decreases, and the bucket is remembered as the last hash. Fails with
    /// `KeyNotFound` — leaving everything untouched — when the observer or
    /// the campaign metadata is missing.
    open spec fn on_evaluation_metadata_ens(
        pre: Self,
        post: Self,
        pre_state: CampaignState,
        post_state: CampaignState,
        observers: Observers,
        r: Result<(), Error>,
    ) -> bool {
        &&& post_state.rand == pre_state.rand
        &&& post_state.corpus == pre_state.corpus
        &&& post_state.probability_metadata == pre_state.probability_metadata
        &&& post.spec_map_observer_name() == pre.spec_map_observer_name()
        &&& post.spec_queue_cycles() == pre.spec_queue_cycles()
        &&& match spec_lookup(observers@, pre.spec_map_observer_name()) {
            None => r == Err::<(), Error>(Error::KeyNotFound) && post == pre && post_state
                == pre_state,
            Some(o) => match pre_state.scheduler_metadata {
                None => r == Err::<(), Error>(Error::KeyNotFound) && post == pre && post_state
                    == pre_state,
                Some(m) => {
                    let bucket = ((hash_of(o.spec_map()) as usize) as int) % (
                    m.spec_n_fuzz().len() as int);
                    &&& r == Ok::<(), Error>(())
                    &&& post_state.scheduler_metadata is Some
                    &&& post_state.scheduler_metadata.unwrap().spec_n_fuzz()
                        == SchedulerMetadata::spec_bump(m.spec_n_fuzz(), bucket)
                    &&& post.spec_last_hash() == bucket
                    &&& forall|i: int|
                        0 <= i < m.spec_n_fuzz().len()
                            ==> post_state.scheduler_metadata.unwrap().spec_n_fuzz()[i]
                            >= m.spec_n_fuzz()[i]
                },
            },
        }
    }

    fn on_evaluation_metadata(&mut self, state: &mut CampaignState, observers: &Observers) -> (r:
        Result<(), Error>) {
        let observer = match observers.get(&self.map_observer_name) {
            Some(o) => o,
            None => {
                return Err(Error::KeyNotFound);
            },
        };
        let hash = observer.hash_simple();
        match &mut state.scheduler_metadata {
            Some(m) => {
                let len = m.n_fuzz().len();
                let bucket = (hash as usize) % len;
                m.bump(bucket);
                self.last_hash = bucket;
                Ok(())
            },
            None => Err(Error::KeyNotFound),
        }
    }

    open spec fn on_next_metadata_req(self, state: CampaignState) -> bool {
        state.corpus.wf()
    }

    /// The currently scheduled testcase's handicap ages one step; nothing
    /// else changes. Without a current testcase this is a no-op; a current
    /// testcase that is gone or carries no metadata fails with
    /// `KeyNotFound`, leaving the state untouched.
    open spec fn on_next_metadata_ens(
        self,
        pre_state: CampaignState,
        post_state: CampaignState,
        next_id: Option<CorpusId>,
        r: Result<(), Error>,
    ) -> bool {
        &&& post_state.rand == pre_state.rand
        &&& post_state.scheduler_metadata == pre_state.scheduler_metadata
        &&& post_state.probability_metadata == pre_state.probability_metadata
        &&& post_state.corpus.wf()
        &&& post_state.corpus.spec_ids() == pre_state.corpus.spec_ids()
        &&& post_state.corpus.spec_current() == pre_state.corpus.spec_current()
        &&& post_state.corpus.spec_next_id() == pre_state.corpus.spec_next_id()
        &&& match pre_state.corpus.spec_current() {
            None => r == Ok::<(), Error>(()) && post_state == pre_state,
            Some(cid) => match pre_state.corpus.spec_get(cid) {
                None => r == Err::<(), Error>(Error::KeyNotFound) && post_state == pre_state,
                Some(tc) => match tc.scheduler_metadata {
                    None => r == Err::<(), Error>(Error::KeyNotFound) && post_state == pre_state,
                    Some(m) => {
                        &&& r == Ok::<(), Error>(())
                        &&& post_state.corpus.spec_get(cid) == Some(
                            Testcase {
                                scheduler_metadata: Some(
                                    SchedulerTestcaseMetadata {
                                        handicap: spec_handicap_aged(m.handicap),
                                        ..m
                                    },
                                ),
                                ..tc
                            },
                        )
                        &&& forall|other: CorpusId|
                            other != cid ==> post_state.corpus.spec_get(other)
                                == pre_state.corpus.spec_get(other)
                    },
                },
            },
        }
    }

    fn on_next_metadata(&mut self, state: &mut CampaignState, next_id: Option<CorpusId>) -> (r:
        Result<(), Error>) {
        let current_id = state.corpus.current();
        match current_id {
            None => Ok(()),
            Some(cid) => {
                let testcase = match state.corpus.get(cid) {
                    Ok(t) => *t,
                    Err(e) => {
                        return Err(e);
                    },
                };
                let mut metadata = match testcase.scheduler_metadata() {
                    Ok(m) => m,
                    Err(e) => {
                        return Err(e);
                    },
                };
                let handicap = metadata.handicap();
                let aged: u32 = if handicap >= 4 {
                    handicap - 4
                } else if handicap > 0 {
                    handicap - 1
                } else {
                    handicap
                };
                metadata.set_handicap(aged);
                match state.corpus.set_scheduler_metadata(cid, metadata) {
                    Ok(()) => Ok(()),
                    Err(e) => Err(e),
                }
            },
        }
    }
}

impl Scheduler for QueueScheduler {
    open spec fn on_add_req(self, state: CampaignState, id: CorpusId) -> bool {
        self.on_add_metadata_req(state, id)
    }

    /// Adding a testcase attaches the AFL-style scheduling metadata and the
    /// parent link; see `on_add_metadata_ens`.
    open spec fn on_add_ens(
        pre: Self,
        post: Self,
        pre_state: CampaignState,
        post_state: CampaignState,
        id: CorpusId,
        r: Result<(), Error>,
    ) -> bool {
        post == pre && pre.on_add_metadata_ens(pre_state, post_state, id, r)
    }

    fn on_add(&mut self, state: &mut CampaignState, id: CorpusId) -> (r: Result<(), Error>) {
        self.on_add_metadata(state, id)
    }

    open spec fn on_evaluation_req(self, state: CampaignState, observers: Observers) -> bool {
        self.on_evaluation_metadata_req(state, observers)
    }

    /// Every evaluation feeds the coverage-hash frequency table; see
    /// `on_evaluation_metadata_ens`.
    open spec fn on_evaluation_ens(
        pre: Self,
        post: Self,
        pre_state: CampaignState,
        post_state: CampaignState,
        observers: Observers,
        r: Result<(), Error>,
    ) -> bool {
        QueueScheduler::on_evaluation_metadata_ens(pre, post, pre_state, post_state, observers, r)
    }

    fn on_evaluation(&mut self, state: &mut CampaignState, observers: &Observers) -> (r: Result<
        (),
        Error,
    >) {
        self.on_evaluation_metadata(state, observers)
    }

    open spec fn next_req(self, state: CampaignState) -> bool {
        state.corpus.wf() && self.spec_queue_cycles() < u64::MAX
    }

    /// Selection cycles in insertion order: the entry after the current
    /// one, wrapping to the front — and counting a completed cycle — when
    /// the current one was last. A removed current id is skipped over to the
    /// next stored id. `Empty` exactly on an empty corpus.
    open spec fn next_ens(
        pre: Self,
        post: Self,
        pre_state: CampaignState,
        post_state: CampaignState,
        r: Result<CorpusId, Error>,
    ) -> bool {
        &&& post_state.rand == pre_state.rand
        &&& post_state.scheduler_metadata == pre_state.scheduler_metadata
        &&& post_state.probability_metadata == pre_state.probability_metadata
        &&& post.spec_last_hash() == pre.spec_last_hash()
        &&& post.spec_map_observer_name() == pre.spec_map_observer_name()
        &&& post_state.corpus.wf()
        &&& post_state.corpus.spec_ids() == pre_state.corpus.spec_ids()
        &&& post_state.corpus.spec_next_id() == pre_state.corpus.spec_next_id()
        &&& if pre_state.corpus.spec_ids().len() == 0 {
            &&& r == Err::<CorpusId, Error>(Error::Empty)
            &&& post_state == pre_state
            &&& post == pre
        } else {
            let ids = pre_state.corpus.spec_ids();
            let picked = ids[queue_pos(ids, pre_state.corpus.spec_current())];
            &&& r == Ok::<CorpusId, Error>(picked)
            &&& pre_state.corpus.contains_id(picked)
            &&& post_state.corpus.spec_current() == Some(picked)
            &&& post_state.corpus.spec_entries() == pre_state.corpus.spec_entries()
            &&& post.spec_queue_cycles() == pre.spec_queue_cycles() + (
            if queue_wrapped(ids, pre_state.corpus.spec_current()) {
                1int
            } else {
                0int
            })
        }
    }

    fn next(&mut self, state: &mut CampaignState) -> (r: Result<CorpusId, Error>) {
        let count = state.corpus.count();
        if count == 0 {
            return Err(Error::Empty);
        }
        let ghost ids = state.corpus.spec_ids();
        let current = state.corpus.current();
        let mut pos: usize = 0;
        let mut wrapped: bool = false;
        match current {
            None => {},
            Some(c) => {
                let mut k: usize = 0;
                while k < count && state.corpus.id_at(k).0 <= c.0
                    invariant
                        k <= count,
                        count == ids.len(),
                        state.corpus.spec_ids() == ids,
                        state.corpus.wf(),
                        forall|j: int| 0 <= j < k ==> (#[trigger] ids[j]).0 <= c.0,
                    decreases count - k,
                {
                    k += 1;
                }
                proof {
                    lemma_first_greater_skip(ids, c.0, k as int);
                }
                if k == count {
                    pos = 0;
                    wrapped = true;
                } else {
                    pos = k;
                    wrapped = false;
                }
            },
        }
        if wrapped {
            self.queue_cycles += 1;
        }
        let id = state.corpus.id_at(pos);
        proof {
            assert(state.corpus.spec_ids().contains(id)) by {
                assert(state.corpus.spec_ids()[pos as int] == id);
            }
        }
        match self.set_current_scheduled(state, Some(id)) {
            Ok(()) => Ok(id),
            Err(e) => Err(e),
        }
    }
}

} // verus!
