//! A model of the corpus: the retained testcases, their per-testcase
//! scheduling metadata, and the currently scheduled entry.
//!
//! The physical corpus store is an external collaborator; the scheduling
//! core only depends on what is modelled here: a sequence of testcases in
//! insertion order, addressed by stable ids, each carrying the scalar
//! attributes the schedulers read (input length, execution time, parent
//! link, scheduling metadata).

use vstd::prelude::*;

use crate::{CorpusId, Error};

verus! {

/// Per-testcase bookkeeping attached by the AFL-style schedulers.
#[derive(Clone, Copy, Debug, PartialEq, Eq, Structural)]
pub struct SchedulerTestcaseMetadata {
    /// Number of ancestors in the mutation chain, root testcases at 1.
    pub depth: u32,
    /// Aging counter that lowers future selection priority; decays to zero.
    pub handicap: u32,
    /// Bucket of the coverage-map hash at the time this entry was added.
    pub n_fuzz_entry: usize,
}

impl SchedulerTestcaseMetadata {
    pub fn new(depth: u32) -> (r: Self)
        ensures
            r == (SchedulerTestcaseMetadata { depth, handicap: 0, n_fuzz_entry: 0 }),
    {
        SchedulerTestcaseMetadata { depth, handicap: 0, n_fuzz_entry: 0 }
    }

    pub fn with_n_fuzz_entry(depth: u32, n_fuzz_entry: usize) -> (r: Self)
        ensures
            r == (SchedulerTestcaseMetadata { depth, handicap: 0, n_fuzz_entry }),
    {
        SchedulerTestcaseMetadata { depth, handicap: 0, n_fuzz_entry }
    }

    pub fn depth(&self) -> (r: u32)
        ensures
            r == self.depth,
    {
        self.depth
    }

    pub fn handicap(&self) -> (r: u32)
        ensures
            r == self.handicap,
    {
        self.handicap
    }

    pub fn set_handicap(&mut self, handicap: u32)
        ensures
            *final(self) == (SchedulerTestcaseMetadata { handicap, ..*old(self) }),
    {
        self.handicap = handicap;
    }

    pub fn n_fuzz_entry(&self) -> (r: usize)
        ensures
            r == self.n_fuzz_entry,
    {
        self.n_fuzz_entry
    }
}

/// A retained testcase: the scalar attributes of the stored input that the
/// feedback and scheduling core reads and writes.
#[derive(Clone, Copy, Debug, PartialEq, Eq, Structural)]
pub struct Testcase {
    /// Length of the stored input, in bytes.
    pub input_len: u64,
    /// Wall-clock execution time of the input, in microseconds.
    pub exec_time_us: u64,
    /// The testcase that was scheduled when this one was added, if any.
    pub parent_id: Option<CorpusId>,
    /// Scheduling metadata, attached by a scheduler's `on_add` hook.
    pub scheduler_metadata: Option<SchedulerTestcaseMetadata>,
}

impl Testcase {
    pub fn new(input_len: u64, exec_time_us: u64) -> (r: Self)
        ensures
            r == (Testcase { input_len, exec_time_us, parent_id: None, scheduler_metadata: None }),
    {
        Testcase { input_len, exec_time_us, parent_id: None, scheduler_metadata: None }
    }

    pub fn parent_id(&self) -> (r: Option<CorpusId>)
        ensures
            r == self.parent_id,
    {
        self.parent_id
    }

    pub fn set_parent_id_optional(&mut self, parent_id: Option<CorpusId>)
        ensures
            *final(self) == (Testcase { parent_id, ..*old(self) }),
    {
        self.parent_id = parent_id;
    }

    /// The scheduling metadata of this testcase, or `KeyNotFound` if no
    /// scheduler has attached one yet.
    pub fn scheduler_metadata(&self) -> (r: Result<SchedulerTestcaseMetadata, Error>)
        ensures
            match r {
                Ok(m) => self.scheduler_metadata == Some(m),
                Err(e) => self.scheduler_metadata is None && e == Error::KeyNotFound,
            },
    {
        match self.scheduler_metadata {
            Some(m) => Ok(m),
            None => Err(Error::KeyNotFound),
        }
    }

    pub fn set_scheduler_metadata(&mut self, metadata: SchedulerTestcaseMetadata)
        ensures
            *final(self) == (Testcase { scheduler_metadata: Some(metadata), ..*old(self) }),
    {
        self.scheduler_metadata = Some(metadata);
    }
}

/// The set of retained testcases, in insertion order, with the currently
/// scheduled id and the id counter for fresh entries.
pub struct Corpus {
    entries: Vec<(CorpusId, Testcase)>,
    current: Option<CorpusId>,
    next_id: u64,
}

impl Corpus {
    /// The stored entries, in insertion order.
    pub closed spec fn spec_entries(self) -> Seq<(CorpusId, Testcase)> {
        self.entries@
    }

    /// The ids of the stored entries, in insertion order.
    pub open spec fn spec_ids(self) -> Seq<CorpusId> {
        self.spec_entries().map_values(|p: (CorpusId, Testcase)| p.0)
    }

    /// The currently scheduled id, if any.
    pub closed spec fn spec_current(self) -> Option<CorpusId> {
        self.current
    }

    /// The id the next added testcase will receive.
    pub closed spec fn spec_next_id(self) -> u64 {
        self.next_id
    }

    pub open spec fn contains_id(self, id: CorpusId) -> bool {
        self.spec_ids().contains(id)
    }

    /// The position of `id` in insertion order.
    pub open spec fn spec_index_of(self, id: CorpusId) -> int {
        choose|i: int| 0 <= i < self.spec_ids().len() && self.spec_ids()[i] == id
    }

    /// The stored testcase under `id`.
    pub open spec fn spec_get(self, id: CorpusId) -> Option<Testcase> {
        if self.contains_id(id) {
            Some(self.spec_entries()[self.spec_index_of(id)].1)
        } else {
            None
        }
    }

    /// Entries are strictly sorted by id and stay below the id counter:
    /// ids are handed out in increasing order and never reused.
    pub open spec fn entries_wf(entries: Seq<(CorpusId, Testcase)>, next_id: u64) -> bool {
        &&& forall|i: int, j: int|
            0 <= i < j < entries.len() ==> (#[trigger] entries[i]).0.0 < (
            #[trigger] entries[j]).0.0
        &&& forall|i: int| 0 <= i < entries.len() ==> (#[trigger] entries[i]).0.0 < next_id
    }

    pub open spec fn wf(self) -> bool {
        Self::entries_wf(self.spec_entries(), self.spec_next_id())
    }

    /// The id at position `i` is the first component of the entry there.
    pub proof fn lemma_ids_index(self, i: int)
        requires
            0 <= i < self.spec_entries().len(),
        ensures
            self.spec_ids().len() == self.spec_entries().len(),
            self.spec_ids()[i] == self.spec_entries()[i].0,
    {
    }

    /// Under `wf`, an id occurs at one position only.
    pub proof fn lemma_index_unique(self, i: int, j: int)
        requires
            self.wf(),
            0 <= i < self.spec_ids().len(),
            0 <= j < self.spec_ids().len(),
            self.spec_ids()[i] == self.spec_ids()[j],
        ensures
            i == j,
    {
        self.lemma_ids_index(i);
        self.lemma_ids_index(j);
    }

    pub fn new() -> (r: Self)
        ensures
            r.spec_entries() == Seq::<(CorpusId, Testcase)>::empty(),
            r.spec_current() is None,
            r.spec_next_id() == 0,
            r.wf(),
    {
        Corpus { entries: Vec::new(), current: None, next_id: 0 }
    }

    pub fn count(&self) -> (r: usize)
        ensures
            r == self.spec_ids().len(),
    {
        self.entries.len()
    }

    pub fn current(&self) -> (r: Option<CorpusId>)
        ensures
            r == self.spec_current(),
    {
        self.current
    }

    pub fn set_current(&mut self, id: Option<CorpusId>)
        ensures
            final(self).spec_entries() == old(self).spec_entries(),
            final(self).spec_current() == id,
            final(self).spec_next_id() == old(self).spec_next_id(),
            old(self).wf() ==> final(self).wf(),
    {
        self.current = id;
    }

    /// The id at the given insertion-order position.
    pub fn id_at(&self, index: usize) -> (r: CorpusId)
        requires
            index < self.spec_ids().len(),
        ensures
            r == self.spec_ids()[index as int],
    {
        self.entries[index].0
    }

    /// Stores a new testcase under a fresh id and returns that id.
    pub fn add(&mut self, testcase: Testcase) -> (r: CorpusId)
        requires
            old(self).wf(),
            old(self).spec_next_id() < u64::MAX,
        ensures
            r == CorpusId(old(self).spec_next_id()),
            !old(self).contains_id(r),
            final(self).spec_entries() == old(self).spec_entries().push((r, testcase)),
            final(self).spec_current() == old(self).spec_current(),
            final(self).spec_next_id() == old(self).spec_next_id() + 1,
            final(self).wf(),
            final(self).spec_get(r) == Some(testcase),
    {
        let id = CorpusId(self.next_id);
        self.next_id += 1;
        self.entries.push((id, testcase));
        proof {
            let pre = *old(self);
            let post = *self;
            let pre_e = pre.spec_entries();
            let post_e = post.spec_entries();
            assert(post_e == pre_e.push((id, testcase)));
            assert forall|i: int| 0 <= i < post_e.len() implies (#[trigger] post_e[i]).0.0
                < post.spec_next_id() by {
                if i < pre_e.len() {
                    assert(post_e[i] == pre_e[i]);
                } else {
                    assert(post_e[i] == (id, testcase));
                }
            }
            assert forall|i: int, j: int| 0 <= i < j < post_e.len() implies (
            #[trigger] post_e[i]).0.0 < (#[trigger] post_e[j]).0.0 by {
                if j < pre_e.len() {
                    assert(post_e[i] == pre_e[i]);
                    assert(post_e[j] == pre_e[j]);
                } else {
                    assert(post_e[i] == pre_e[i]);
                    assert(post_e[j] == (id, testcase));
                }
            }
            if pre.contains_id(id) {
                let k = choose|k: int|
                    0 <= k < pre.spec_ids().len() && pre.spec_ids()[k] == id;
                pre.lemma_ids_index(k);
            }
            post.lemma_ids_index(post_e.len() - 1);
            assert(post.contains_id(id)) by {
                assert(post.spec_ids()[post_e.len() - 1] == id);
            }
            let k = post.spec_index_of(id);
            post.lemma_index_unique(k, post_e.len() - 1);
        }
        id
    }

    /// The position of `id` in insertion order, scanning forward.
    fn find_index(&self, id: CorpusId) -> (r: Option<usize>)
        requires
            self.wf(),
        ensures
            match r {
                Some(i) => self.contains_id(id) && i == self.spec_index_of(id) && i
                    < self.spec_ids().len(),
                None => !self.contains_id(id),
            },
    {
        let n = self.entries.len();
        let mut i: usize = 0;
        while i < n
            invariant
                self.wf(),
                i <= n,
                n == self.spec_ids().len(),
                forall|j: int| 0 <= j < i ==> self.spec_ids()[j] != id,
            decreases n - i,
        {
            if self.entries[i].0 == id {
                proof {
                    assert(self.spec_ids()[i as int] == id);
                    self.lemma_index_unique(self.spec_index_of(id), i as int);
                }
                return Some(i);
            }
            proof {
                assert(self.spec_ids()[i as int] == self.spec_entries()[i as int].0);
            }
            i += 1;
        }
        proof {
            if self.contains_id(id) {
                let k = choose|k: int|
                    0 <= k < self.spec_ids().len() && self.spec_ids()[k] == id;
                assert(self.spec_ids()[k] != id);
            }
        }
        None
    }

    /// The testcase stored under `id`, or `KeyNotFound`.
    pub fn get(&self, id: CorpusId) -> (r: Result<&Testcase, Error>)
        requires
            self.wf(),
        ensures
            match r {
                Ok(t) => self.spec_get(id) == Some(*t),
                Err(e) => !self.contains_id(id) && e == Error::KeyNotFound,
            },
    {
        match self.find_index(id) {
            Some(i) => Ok(&self.entries[i].1),
            None => Err(Error::KeyNotFound),
        }
    }

    /// Overwrites the testcase stored at `index`, leaving every other
    /// entry, the order, the current id and the id counter unchanged.
    fn update_at(&mut self, index: usize, testcase: Testcase)
        requires
            old(self).wf(),
            index < old(self).spec_entries().len(),
        ensures
            final(self).spec_entries() == old(self).spec_entries().update(
                index as int,
                (old(self).spec_entries()[index as int].0, testcase),
            ),
            final(self).spec_current() == old(self).spec_current(),
            final(self).spec_next_id() == old(self).spec_next_id(),
            final(self).wf(),
            final(self).spec_ids() == old(self).spec_ids(),
    {
        let id = self.entries[index].0;
        self.entries.set(index, (id, testcase));
        proof {
            assert(final(self).spec_ids() =~= old(self).spec_ids());
        }
    }

    /// Sets the parent link of the testcase under `id`.
    pub fn set_parent(&mut self, id: CorpusId, parent_id: Option<CorpusId>) -> (r: Result<
        (),
        Error,
    >)
        requires
            old(self).wf(),
        ensures
            final(self).wf(),
            final(self).spec_ids() == old(self).spec_ids(),
            final(self).spec_current() == old(self).spec_current(),
            final(self).spec_next_id() == old(self).spec_next_id(),
            match r {
                Ok(()) => {
                    &&& old(self).contains_id(id)
                    &&& final(self).spec_get(id) == Some(
                        Testcase { parent_id, ..old(self).spec_get(id).unwrap() },
                    )
                    &&& forall|other: CorpusId| other != id ==> final(self).spec_get(other)
                        == old(self).spec_get(other)
                },
                Err(e) => {
                    &&& !old(self).contains_id(id)
                    &&& e == Error::KeyNotFound
                    &&& *final(self) == *old(self)
                },
            },
    {
        match self.find_index(id) {
            Some(i) => {
                let mut t = self.entries[i].1;
                t.set_parent_id_optional(parent_id);
                let ghost pre = *self;
                self.update_at(i, t);
                proof {
                    self.lemma_update_get(pre, id, i as int);
                }
                Ok(())
            },
            None => Err(Error::KeyNotFound),
        }
    }

    /// Attaches scheduling metadata to the testcase under `id`.
    pub fn set_scheduler_metadata(&mut self, id: CorpusId, metadata: SchedulerTestcaseMetadata)
        -> (r: Result<(), Error>)
        requires
            old(self).wf(),
        ensures
            final(self).wf(),
            final(self).spec_ids() == old(self).spec_ids(),
            final(self).spec_current() == old(self).spec_current(),
            final(self).spec_next_id() == old(self).spec_next_id(),
            match r {
                Ok(()) => {
                    &&& old(self).contains_id(id)
                    &&& final(self).spec_get(id) == Some(
                        Testcase {
                            scheduler_metadata: Some(metadata),
                            ..old(self).spec_get(id).unwrap()
                        },
                    )
                    &&& forall|other: CorpusId| other != id ==> final(self).spec_get(other)
                        == old(self).spec_get(other)
                },
                Err(e) => {
                    &&& !old(self).contains_id(id)
                    &&& e == Error::KeyNotFound
                    &&& *final(self) == *old(self)
                },
            },
    {
        match self.find_index(id) {
            Some(i) => {
                let mut t = self.entries[i].1;
                t.set_scheduler_metadata(metadata);
                let ghost pre = *self;
                self.update_at(i, t);
                proof {
                    self.lemma_update_get(pre, id, i as int);
                }
                Ok(())
            },
            None => Err(Error::KeyNotFound),
        }
    }

    /// After updating position `i` (which holds `id`), lookups of `id` see
    /// the new testcase and lookups of every other id are unchanged.
    proof fn lemma_update_get(self, pre: Corpus, id: CorpusId, i: int)
        requires
            pre.wf(),
            self.wf(),
            0 <= i < pre.spec_entries().len(),
            pre.spec_ids()[i] == id,
            self.spec_ids() == pre.spec_ids(),
            self.spec_entries().len() == pre.spec_entries().len(),
            forall|j: int|
                0 <= j < pre.spec_entries().len() && j != i ==> self.spec_entries()[j]
                    == pre.spec_entries()[j],
            self.spec_entries()[i].0 == id,
        ensures
            self.spec_get(id) == Some(self.spec_entries()[i].1),
            forall|other: CorpusId| other != id ==> self.spec_get(other) == pre.spec_get(other),
    {
        assert(self.contains_id(id)) by {
            assert(self.spec_ids()[i] == id);
        }
        self.lemma_index_unique(self.spec_index_of(id), i);
        assert forall|other: CorpusId| other != id implies self.spec_get(other) == pre.spec_get(
            other,
        ) by {
            if pre.contains_id(other) {
                let k = pre.spec_index_of(other);
                assert(pre.spec_ids()[k] == other);
                self.lemma_index_unique(self.spec_index_of(other), k);
                pre.lemma_index_unique(pre.spec_index_of(other), k);
                assert(k != i);
            }
        }
    }

    /// Removes and returns the testcase under `id`; later entries keep their
    /// relative order.
    pub fn remove(&mut self, id: CorpusId) -> (r: Result<Testcase, Error>)
        requires
            old(self).wf(),
        ensures
            final(self).wf(),
            final(self).spec_current() == old(self).spec_current(),
            final(self).spec_next_id() == old(self).spec_next_id(),
            match r {
                Ok(t) => {
                    &&& old(self).spec_get(id) == Some(t)
                    &&& final(self).spec_entries() == old(self).spec_entries().remove(
                        old(self).spec_index_of(id),
                    )
                    &&& !final(self).contains_id(id)
                    &&& forall|other: CorpusId| other != id ==> final(self).spec_get(other)
                        == old(self).spec_get(other)
                },
                Err(e) => {
                    &&& !old(self).contains_id(id)
                    &&& e == Error::KeyNotFound
                    &&& *final(self) == *old(self)
                },
            },
    {
        match self.find_index(id) {
            Some(i) => {
                let ghost pre = *self;
                let pair = self.entries.remove(i);
                proof {
                    let post = *self;
                    assert(post.spec_entries() == pre.spec_entries().remove(i as int));
                    assert(post.spec_ids() =~= pre.spec_ids().remove(i as int));
                    assert forall|other: CorpusId| other != id implies post.spec_get(other)
                        == pre.spec_get(other) by {
                        pre.lemma_remove_get(post, id, i as int, other);
                    }
                    if post.contains_id(id) {
                        let k = post.spec_index_of(id);
                        assert(post.spec_ids()[k] == id);
                        if k < i {
                            assert(pre.spec_ids()[k] == id);
                            pre.lemma_index_unique(k, i as int);
                        } else {
                            assert(pre.spec_ids()[k + 1] == id);
                            pre.lemma_index_unique(k + 1, i as int);
                        }
                    }
                }
                Ok(pair.1)
            },
            None => Err(Error::KeyNotFound),
        }
    }

    /// Removing position `i` (which holds `id`) leaves the lookup of every
    /// other id unchanged.
    proof fn lemma_remove_get(self, post: Corpus, id: CorpusId, i: int, other: CorpusId)
        requires
            self.wf(),
            post.wf(),
            0 <= i < self.spec_entries().len(),
            self.spec_ids()[i] == id,
            post.spec_entries() == self.spec_entries().remove(i),
            other != id,
        ensures
            post.spec_get(other) == self.spec_get(other),
    {
        assert(post.spec_ids() =~= self.spec_ids().remove(i));
        if self.contains_id(other) {
            let k = self.spec_index_of(other);
            assert(self.spec_ids()[k] == other);
            assert(k != i) by {
                if k == i {
                    assert(self.spec_ids()[i] == other);
                }
            }
            if k < i {
                assert(post.spec_ids()[k] == other);
                post.lemma_index_unique(post.spec_index_of(other), k);
                assert(post.spec_entries()[k] == self.spec_entries()[k]);
            } else {
                assert(post.spec_ids()[k - 1] == other);
                post.lemma_index_unique(post.spec_index_of(other), k - 1);
                assert(post.spec_entries()[k - 1] == self.spec_entries()[k]);
            }
        } else {
            if post.contains_id(other) {
                let k = post.spec_index_of(other);
                assert(post.spec_ids()[k] == other);
                if k < i {
                    assert(self.spec_ids()[k] == other);
                } else {
                    assert(self.spec_ids()[k + 1] == other);
                }
            }
        }
    }

    /// Replaces the testcase under `id`, returning the prior one. The id
    /// keeps its position in insertion order.
    pub fn replace(&mut self, id: CorpusId, testcase: Testcase) -> (r: Result<Testcase, Error>)
        requires
            old(self).wf(),
        ensures
            final(self).wf(),
            final(self).spec_ids() == old(self).spec_ids(),
            final(self).spec_current() == old(self).spec_current(),
            final(self).spec_next_id() == old(self).spec_next_id(),
            match r {
                Ok(prev) => {
                    &&& old(self).spec_get(id) == Some(prev)
                    &&& final(self).spec_get(id) == Some(testcase)
                    &&& forall|other: CorpusId| other != id ==> final(self).spec_get(other)
                        == old(self).spec_get(other)
                },
                Err(e) => {
                    &&& !old(self).contains_id(id)
                    &&& e == Error::KeyNotFound
                    &&& *final(self) == *old(self)
                },
            },
    {
        match self.find_index(id) {
            Some(i) => {
                let prev = self.entries[i].1;
                let ghost pre = *self;
                self.update_at(i, testcase);
                proof {
                    self.lemma_update_get(pre, id, i as int);
                }
                Ok(prev)
            },
            None => Err(Error::KeyNotFound),
        }
    }
}

} // verus!
