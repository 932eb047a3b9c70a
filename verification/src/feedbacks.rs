//! Map feedback: per-cell novelty detection against a persistent history map.
//!
//! A `MapFeedback` owns a history map of byte cells and, for every new
//! observation, folds each cell through a `Reducer` against the stored
//! history. A cell whose reduced value differs from the stored one is novel;
//! the count of novel cells is the interestingness of the last run, and each
//! novel cell overwrites its history entry with the reduced value.

use vstd::prelude::*;

use crate::corpus::Testcase;
use crate::observers::{spec_lookup, MapObserver, Observers};
use crate::Error;

verus! {

/// A pure binary operation that aggregates a stored history value with a
/// fresh observation. It must absorb repeated observations: reducing a
/// reduced value with the same observation again changes nothing, which is
/// what makes a second identical run report zero novelties.
pub trait Reducer: Sized {
    /// What the reduction computes.
    spec fn spec_reduce(a: u8, b: u8) -> u8;

    /// Reducing twice with the same observation is the same as reducing once.
    proof fn lemma_reduce_absorbs(a: u8, b: u8)
        ensures
            Self::spec_reduce(Self::spec_reduce(a, b), b) == Self::spec_reduce(a, b),
    ;

    fn reduce(first: u8, second: u8) -> (r: u8)
        ensures
            r == Self::spec_reduce(first, second),
    ;
}

/// Keeps the larger value: a novel cell means "more coverage than ever seen".
pub struct MaxReducer;

impl Reducer for MaxReducer {
    open spec fn spec_reduce(a: u8, b: u8) -> u8 {
        if a > b {
            a
        } else {
            b
        }
    }

    proof fn lemma_reduce_absorbs(a: u8, b: u8) {
    }

    fn reduce(first: u8, second: u8) -> u8 {
        if first > second {
            first
        } else {
            second
        }
    }
}

/// Keeps the smaller value: a novel cell means "a smaller value than ever
/// seen". Useful only with a history map initialized to the cell type's
/// maximum; see [`MapFeedback::with_history_map`].
pub struct MinReducer;

impl Reducer for MinReducer {
    open spec fn spec_reduce(a: u8, b: u8) -> u8 {
        if a < b {
            a
        } else {
            b
        }
    }

    proof fn lemma_reduce_absorbs(a: u8, b: u8) {
    }

    fn reduce(first: u8, second: u8) -> u8 {
        if first < second {
            first
        } else {
            second
        }
    }
}

/// The history map after one observation: every cell reduced with the
/// observed cell at the same index.
pub open spec fn reduce_seq<R: Reducer>(h: Seq<u8>, o: Seq<u8>) -> Seq<u8> {
    Seq::new(h.len(), |i: int| R::spec_reduce(h[i], o[i]))
}

/// How many of the first `n` cells are novel: cells whose reduced value
/// differs from the stored history.
pub open spec fn novelties_up_to<R: Reducer>(h: Seq<u8>, o: Seq<u8>, n: int) -> int
    decreases n,
{
    if n <= 0 {
        0
    } else {
        novelties_up_to::<R>(h, o, n - 1) + if R::spec_reduce(h[n - 1], o[n - 1]) != h[n - 1] {
            1int
        } else {
            0int
        }
    }
}

/// The novelty count of a whole observation against a history map.
pub open spec fn novelty_count<R: Reducer>(h: Seq<u8>, o: Seq<u8>) -> int {
    novelties_up_to::<R>(h, o, h.len() as int)
}

pub proof fn lemma_novelties_bounds<R: Reducer>(h: Seq<u8>, o: Seq<u8>, n: int)
    ensures
        0 <= novelties_up_to::<R>(h, o, n),
        novelties_up_to::<R>(h, o, n) <= if n >= 0 {
            n
        } else {
            0int
        },
    decreases n,
{
    if n > 0 {
        lemma_novelties_bounds::<R>(h, o, n - 1);
    }
}

/// The decision a feedback reports to the engine: how interesting the last
/// run was, judged from the observers.
pub trait Feedback: Sized {
    /// When `is_interesting` may be called.
    spec fn interesting_req(self, observers: Observers) -> bool;

    /// What `is_interesting` returns and how it updates the feedback.
    spec fn interesting_ens(pre: Self, post: Self, observers: Observers, r: Result<
        u32,
        Error,
    >) -> bool;

    /// Judges the last run from `observers` and updates the persistent state
    /// of the feedback.
    fn is_interesting(&mut self, observers: &Observers) -> (r: Result<u32, Error>)
        requires
            old(self).interesting_req(*observers),
        ensures
            Self::interesting_ens(*old(self), *final(self), *observers, r),
    ;

    /// Appends generated run metadata to a freshly retained testcase. The
    /// feedbacks of this crate gather none, so this is a no-op.
    fn append_metadata(&mut self, testcase: &mut Testcase) -> (r: Result<(), Error>)
        ensures
            r == Ok::<(), Error>(()),
            *final(self) == *old(self),
            *final(testcase) == *old(testcase),
    {
        Ok(())
    }

    /// Discards run metadata gathered for an input that was not retained; a
    /// no-op for the feedbacks of this crate.
    fn discard_metadata(&mut self) -> (r: Result<(), Error>)
        ensures
            r == Ok::<(), Error>(()),
            *final(self) == *old(self),
    {
        Ok(())
    }

    /// The name of this feedback, by which it locates its observer.
    spec fn spec_name(self) -> Seq<char>;

    fn name(&self) -> (r: &String)
        ensures
            r@ == self.spec_name(),
    ;
}

/// The AFL-style map feedback: a persistent history map plus a reducer
/// choice, compared cell by cell against the observer of the same name.
pub struct MapFeedback<R: Reducer> {
    history_map: Vec<u8>,
    name: String,
    reducer: core::marker::PhantomData<R>,
}

/// Map feedback that reports cells larger than ever seen.
pub type MaxMapFeedback = MapFeedback<MaxReducer>;

/// Map feedback that reports cells smaller than ever seen.
pub type MinMapFeedback = MapFeedback<MinReducer>;

fn filled_vec(len: usize, value: u8) -> (r: Vec<u8>)
    ensures
        r@ == Seq::new(len as nat, |i: int| value),
{
    let mut v: Vec<u8> = Vec::new();
    let mut i: usize = 0;
    while i < len
        invariant
            i <= len,
            v@ == Seq::new(i as nat, |j: int| value),
        decreases len - i,
    {
        v.push(value);
        assert(v@ =~= Seq::new((i + 1) as nat, |j: int| value));
        i += 1;
    }
    assert(v@ =~= Seq::new(len as nat, |j: int| value));
    v
}

impl<R: Reducer> MapFeedback<R> {
    /// The stored history map: cell `i` holds the reduction of every value
    /// ever observed at index `i` (starting from the initial fill).
    pub closed spec fn spec_history(self) -> Seq<u8> {
        self.history_map@
    }

    /// Creates a map feedback with a zero-initialized history map.
    ///
    /// Zero is the right initial value for [`MaxReducer`]. For
    /// [`MinReducer`] a zero-initialized history is degenerate (no cell can
    /// ever decrease below zero): use [`MapFeedback::with_history_map`] with
    /// a history filled with `u8::MAX` instead.
    pub fn new(name: &str, map_size: usize) -> (r: Self)
        ensures
            r.spec_history() == Seq::new(map_size as nat, |i: int| 0u8),
            r.spec_name() == name@,
    {
        MapFeedback {
            history_map: filled_vec(map_size, 0),
            name: name.to_string(),
            reducer: core::marker::PhantomData,
        }
    }

    /// Creates a map feedback whose history length and name mirror the given
    /// observer. The history starts at zero, as with [`MapFeedback::new`].
    pub fn new_with_observer(map_observer: &MapObserver) -> (r: Self)
        ensures
            r.spec_history() == Seq::new(map_observer.spec_map().len(), |i: int| 0u8),
            r.spec_name() == map_observer.spec_name(),
    {
        let len = map_observer.len();
        MapFeedback {
            history_map: filled_vec(len, 0),
            name: map_observer.name().clone(),
            reducer: core::marker::PhantomData,
        }
    }

    /// The stored history map, e.g. for persisting it.
    pub fn history_map(&self) -> (r: &Vec<u8>)
        ensures
            r@ == self.spec_history(),
    {
        &self.history_map
    }

    /// Creates a map feedback over an explicit initial history map.
    ///
    /// This is the initializer to use for [`MinReducer`]: pass a history
    /// filled with `u8::MAX`, so that smaller observations register as
    /// novel.
    pub fn with_history_map(name: &str, history_map: Vec<u8>) -> (r: Self)
        ensures
            r.spec_history() == history_map@,
            r.spec_name() == name@,
    {
        MapFeedback {
            history_map,
            name: name.to_string(),
            reducer: core::marker::PhantomData,
        }
    }
}

impl<R: Reducer> Feedback for MapFeedback<R> {
    open spec fn interesting_req(self, observers: Observers) -> bool {
        self.spec_history().len() <= u32::MAX
    }

    open spec fn interesting_ens(pre: Self, post: Self, observers: Observers, r: Result<
        u32,
        Error,
    >) -> bool {
        match spec_lookup(observers@, pre.spec_name()) {
            None => r == Err::<u32, Error>(Error::KeyNotFound) && post == pre,
            Some(o) => if o.spec_map().len() != pre.spec_history().len() {
                r == Err::<u32, Error>(Error::SizeMismatch) && post == pre
            } else {
                &&& r == Ok::<u32, Error>(
                    novelty_count::<R>(pre.spec_history(), o.spec_map()) as u32,
                )
                &&& post.spec_history() == reduce_seq::<R>(pre.spec_history(), o.spec_map())
                &&& post.spec_name() == pre.spec_name()
            },
        }
    }

    /// Counts the cells of the named observer whose reduced value differs
    /// from the stored history, overwriting each such history cell with the
    /// reduced value. Fails with `KeyNotFound` if no observer carries this
    /// feedback's name, and with `SizeMismatch` if the observation's length
    /// differs from the history map's; in both cases the history is left
    /// untouched.
    fn is_interesting(&mut self, observers: &Observers) -> (r: Result<u32, Error>) {
        let observer = match observers.get(&self.name) {
            Some(o) => o,
            None => {
                return Err(Error::KeyNotFound);
            },
        };
        let size = observer.len();
        if size != self.history_map.len() {
            return Err(Error::SizeMismatch);
        }
        let ghost old_history = self.history_map@;
        let ghost obs = observer.spec_map();
        let mut interesting: u32 = 0;
        let mut i: usize = 0;
        while i < size
            invariant
                i <= size,
                size == self.history_map@.len(),
                size == old_history.len(),
                size == obs.len(),
                size <= u32::MAX,
                observer.spec_map() == obs,
                forall|j: int|
                    0 <= j < i ==> self.history_map@[j] == R::spec_reduce(
                        old_history[j],
                        obs[j],
                    ),
                forall|j: int| i <= j < size ==> self.history_map@[j] == old_history[j],
                interesting == novelties_up_to::<R>(old_history, obs, i as int),
                self.name@ == old(self).name@,
            decreases size - i,
        {
            let history = self.history_map[i];
            let item = observer.map()[i];
            let reduced = R::reduce(history, item);
            proof {
                lemma_novelties_bounds::<R>(old_history, obs, i as int);
            }
            if history != reduced {
                self.history_map.set(i, reduced);
                interesting += 1;
            }
            i += 1;
        }
        proof {
            assert(self.history_map@ =~= reduce_seq::<R>(old_history, obs));
        }
        Ok(interesting)
    }

    closed spec fn spec_name(self) -> Seq<char> {
        self.name@
    }

    fn name(&self) -> (r: &String) {
        &self.name
    }
}

/// With the max reducer, history cells never decrease: one call of
/// `is_interesting` moves every cell from `h[i]` to `max(h[i], o[i])`.
pub proof fn lemma_max_history_monotone(h: Seq<u8>, o: Seq<u8>)
    requires
        h.len() == o.len(),
    ensures
        forall|i: int| 0 <= i < h.len() ==> reduce_seq::<MaxReducer>(h, o)[i] >= h[i],
{
}

/// Novelty is idempotent: after one observation has been folded into the
/// history, folding the identical observation again changes no cell and
/// reports zero novelties.
pub proof fn lemma_novelty_idempotent<R: Reducer>(h: Seq<u8>, o: Seq<u8>)
    requires
        h.len() == o.len(),
    ensures
        reduce_seq::<R>(reduce_seq::<R>(h, o), o) =~= reduce_seq::<R>(h, o),
        novelty_count::<R>(reduce_seq::<R>(h, o), o) == 0,
{
    assert forall|i: int| 0 <= i < h.len() implies R::spec_reduce(
        reduce_seq::<R>(h, o)[i],
        o[i],
    ) == reduce_seq::<R>(h, o)[i] by {
        R::lemma_reduce_absorbs(h[i], o[i]);
    }
    lemma_no_novelty_when_absorbed::<R>(reduce_seq::<R>(h, o), o, h.len() as int);
}

/// If every cell of `h` already absorbs the corresponding cell of `o`, the
/// first `n` cells contain no novelty.
proof fn lemma_no_novelty_when_absorbed<R: Reducer>(h: Seq<u8>, o: Seq<u8>, n: int)
    requires
        n <= h.len(),
        forall|i: int| 0 <= i < h.len() ==> R::spec_reduce(h[i], o[i]) == h[i],
    ensures
        novelties_up_to::<R>(h, o, n) == 0,
    decreases n,
{
    if n > 0 {
        lemma_no_novelty_when_absorbed::<R>(h, o, n - 1);
    }
}

/// The history map after a whole sequence of observations, folded in order.
pub open spec fn apply_observations<R: Reducer>(h: Seq<u8>, os: Seq<Seq<u8>>) -> Seq<u8>
    decreases os.len(),
{
    if os.len() == 0 {
        h
    } else {
        apply_observations::<R>(reduce_seq::<R>(h, os[0]), os.drop_first())
    }
}

/// One cell's value folded through a sequence of observed values.
pub open spec fn fold_cell<R: Reducer>(init: u8, vals: Seq<u8>) -> u8
    decreases vals.len(),
{
    if vals.len() == 0 {
        init
    } else {
        fold_cell::<R>(R::spec_reduce(init, vals[0]), vals.drop_first())
    }
}

/// Folding in one more observation is one more per-cell reduction: the
/// bridge between a further `is_interesting` call — whose contract updates
/// the history by `reduce_seq` — and the fold over all observations seen.
pub proof fn lemma_apply_observations_step<R: Reducer>(h: Seq<u8>, os: Seq<Seq<u8>>, o: Seq<u8>)
    ensures
        apply_observations::<R>(h, os.push(o)) == reduce_seq::<R>(
            apply_observations::<R>(h, os),
            o,
        ),
    decreases os.len(),
{
    assert(os.push(o).len() == os.len() + 1);
    assert(apply_observations::<R>(h, os.push(o)) == apply_observations::<R>(
        reduce_seq::<R>(h, os.push(o)[0]),
        os.push(o).drop_first(),
    ));
    if os.len() == 0 {
        assert(os.push(o)[0] == o);
        assert(os.push(o).drop_first() =~= Seq::<Seq<u8>>::empty());
        assert(apply_observations::<R>(reduce_seq::<R>(h, o), os.push(o).drop_first())
            == reduce_seq::<R>(h, o));
        assert(apply_observations::<R>(h, os) == h);
    } else {
        assert(os.push(o)[0] == os[0]);
        assert(os.push(o).drop_first() =~= os.drop_first().push(o));
        lemma_apply_observations_step::<R>(reduce_seq::<R>(h, os[0]), os.drop_first(), o);
        assert(apply_observations::<R>(h, os) == apply_observations::<R>(
            reduce_seq::<R>(h, os[0]),
            os.drop_first(),
        ));
    }
}

/// After processing observations `o_1 .. o_k` in order, cell `i` of the
/// history map equals the fold of the reducer over the initial value and
/// the `i`-th cell of every observation — the history is exactly the
/// per-cell reduction of everything ever seen.
pub proof fn lemma_history_is_fold<R: Reducer>(h: Seq<u8>, os: Seq<Seq<u8>>, i: int)
    requires
        forall|k: int| 0 <= k < os.len() ==> (#[trigger] os[k]).len() == h.len(),
        0 <= i < h.len(),
    ensures
        apply_observations::<R>(h, os)[i] == fold_cell::<R>(
            h[i],
            os.map_values(|o: Seq<u8>| o[i]),
        ),
    decreases os.len(),
{
    let vals = os.map_values(|o: Seq<u8>| o[i]);
    if os.len() == 0 {
        assert(apply_observations::<R>(h, os) == h);
        assert(vals.len() == 0);
    } else {
        let h1 = reduce_seq::<R>(h, os[0]);
        assert(h1.len() == h.len());
        lemma_history_is_fold::<R>(h1, os.drop_first(), i);
        assert(os.drop_first().map_values(|o: Seq<u8>| o[i]) =~= vals.drop_first());
        assert(h1[i] == R::spec_reduce(h[i], os[0][i]));
        assert(vals[0] == os[0][i]);
    }
}

} // verus!
