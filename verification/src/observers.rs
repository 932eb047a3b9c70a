//! A model of the observer bag that the engine hands to the feedback and
//! scheduler hooks.
//!
//! The observer infrastructure itself (instrumentation, shared maps) is an
//! external collaborator; the core only ever reads a named, fixed-length
//! coverage map of byte cells from it. `MapObserver` carries exactly that,
//! and `Observers` is the bag in which a feedback locates its observer by
//! name.

use vstd::prelude::*;

verus! {

/// A named, fixed-length coverage map filled by the last execution of the
/// target: one byte cell per edge/feature.
pub struct MapObserver {
    name: String,
    map: Vec<u8>,
}

impl MapObserver {
    /// The observer's name, by which feedbacks and schedulers locate it.
    pub closed spec fn spec_name(self) -> Seq<char> {
        self.name@
    }

    /// The cells of the coverage map, in index order.
    pub closed spec fn spec_map(self) -> Seq<u8> {
        self.map@
    }

    pub fn new(name: String, map: Vec<u8>) -> (r: Self)
        ensures
            r.spec_name() == name@,
            r.spec_map() == map@,
    {
        MapObserver { name, map }
    }

    pub fn name(&self) -> (r: &String)
        ensures
            r@ == self.spec_name(),
    {
        &self.name
    }

    pub fn map(&self) -> (r: &Vec<u8>)
        ensures
            r@ == self.spec_map(),
    {
        &self.map
    }

    pub fn len(&self) -> (r: usize)
        ensures
            r == self.spec_map().len(),
    {
        self.map.len()
    }

    /// The 64-bit hash of the map's cells: a function of the cells alone,
    /// so it is stable across calls.
    pub fn hash_simple(&self) -> (r: u64)
        ensures
            r == crate::hashing::hash_of(self.spec_map()),
    {
        crate::hashing::hash_map_bytes(&self.map)
    }
}

/// The first observer of the given name, scanning in insertion order.
pub open spec fn spec_lookup(s: Seq<MapObserver>, name: Seq<char>) -> Option<MapObserver>
    decreases s.len(),
{
    if s.len() == 0 {
        None
    } else if s[0].spec_name() == name {
        Some(s[0])
    } else {
        spec_lookup(s.drop_first(), name)
    }
}

/// Skipping a prefix of observers whose names all differ from `name` does
/// not change what the lookup finds.
proof fn lemma_lookup_skip(s: Seq<MapObserver>, name: Seq<char>, k: int)
    requires
        0 <= k <= s.len(),
        forall|j: int| 0 <= j < k ==> s[j].spec_name() != name,
    ensures
        spec_lookup(s, name) == spec_lookup(s.skip(k), name),
    decreases k,
{
    if k == 0 {
        assert(s.skip(0) =~= s);
    } else {
        lemma_lookup_skip(s, name, k - 1);
        assert(s.skip(k - 1).drop_first() =~= s.skip(k));
        assert(s.skip(k - 1)[0] == s[k - 1]);
    }
}

/// The bag of observers filled by the last execution.
pub struct Observers {
    list: Vec<MapObserver>,
}

impl Observers {
    pub closed spec fn view(self) -> Seq<MapObserver> {
        self.list@
    }

    pub fn new() -> (r: Self)
        ensures
            r@ == Seq::<MapObserver>::empty(),
    {
        Observers { list: Vec::new() }
    }

    pub fn push(&mut self, observer: MapObserver)
        ensures
            final(self)@ == old(self)@.push(observer),
    {
        self.list.push(observer);
    }

    /// Locates the first observer with the given name.
    pub fn get(&self, name: &String) -> (r: Option<&MapObserver>)
        ensures
            match r {
                Some(o) => spec_lookup(self@, name@) == Some(*o),
                None => spec_lookup(self@, name@) is None,
            },
    {
        let n = self.list.len();
        let mut i: usize = 0;
        while i < n
            invariant
                0 <= i <= n,
                n == self@.len(),
                forall|j: int| 0 <= j < i ==> self@[j].spec_name() != name@,
            decreases n - i,
        {
            if self.list[i].name == *name {
                proof {
                    lemma_lookup_skip(self@, name@, i as int);
                    assert(self@.skip(i as int)[0] == self@[i as int]);
                }
                return Some(&self.list[i]);
            }
            i += 1;
        }
        proof {
            lemma_lookup_skip(self@, name@, n as int);
            assert(self@.skip(n as int) =~= Seq::<MapObserver>::empty());
        }
        None
    }
}

} // verus!
