//! The id-to-weight table behind the probability-sampling scheduler.
//!
//! The table is hashbrown's hash map, which the verifier cannot look into:
//! its contents are named by [`prob_entries`], and every operation the
//! scheduler performs is specified over that name. The walk order of the map
//! is deliberately left unspecified; [`prob_map_entries`] only promises to
//! hand out every stored pair exactly once.

use vstd::prelude::*;

verus! {

/// Associates raw corpus ids with non-negative probability weights.
/// Backed by `hashbrown::HashMap`; opaque to the verifier.
#[verifier::external_body]
pub struct ProbMap {
    inner: hashbrown::HashMap<u64, u64>,
}

/// What the table holds: the association from id to weight.
pub uninterp spec fn prob_entries(m: ProbMap) -> Map<u64, u64>;

/// The contents of a table with nothing in it.
pub open spec fn empty_weights() -> Map<u64, u64> {
    Map::empty()
}

/// An enumeration of a table's contents, as one walk of the table sees it:
/// every stored pair exactly once, in some order.
pub open spec fn enumerates(m: Map<u64, u64>, entries: Seq<(u64, u64)>) -> bool {
    &&& entries.len() == m.dom().len()
    &&& forall|i: int|
        0 <= i < entries.len() ==> m.contains_pair((#[trigger] entries[i]).0, entries[i].1)
    &&& forall|i: int, j: int| 0 <= i < j < entries.len() ==> entries[i].0 != entries[j].0
}

/// Relies on `hashbrown::HashMap::new`: a fresh map is empty.
#[verifier::external_body]
pub fn prob_map_new() -> (r: ProbMap)
    ensures
        prob_entries(r) == empty_weights(),
{
    ProbMap { inner: hashbrown::HashMap::new() }
}

/// Relies on `hashbrown::HashMap::insert`: maps the key to the value and
/// returns the previously stored value, if any.
#[verifier::external_body]
pub fn prob_map_insert(m: &mut ProbMap, key: u64, value: u64) -> (r: Option<u64>)
    ensures
        prob_entries(*final(m)) == prob_entries(*old(m)).insert(key, value),
        r == if prob_entries(*old(m)).dom().contains(key) {
            Some(prob_entries(*old(m))[key])
        } else {
            None::<u64>
        },
{
    m.inner.insert(key, value)
}

/// Relies on `hashbrown::HashMap::remove`: removes the key and returns the
/// value that was stored under it, if any.
#[verifier::external_body]
pub fn prob_map_remove(m: &mut ProbMap, key: u64) -> (r: Option<u64>)
    ensures
        prob_entries(*final(m)) == prob_entries(*old(m)).remove(key),
        r == if prob_entries(*old(m)).dom().contains(key) {
            Some(prob_entries(*old(m))[key])
        } else {
            None::<u64>
        },
{
    m.inner.remove(&key)
}

/// Relies on `hashbrown::HashMap::iter`: hands out every stored pair exactly
/// once. The order is the map's walk order and is left unspecified; it is
/// stable only for the lifetime of the returned vector.
#[verifier::external_body]
pub fn prob_map_entries(m: &ProbMap) -> (r: Vec<(u64, u64)>)
    requires
        prob_entries(*m).dom().finite(),
    ensures
        enumerates(prob_entries(*m), r@),
{
    m.inner.iter().map(|(k, v)| (*k, *v)).collect()
}

/// The sum of every weight stored in the table.
pub open spec fn sum_values(m: Map<u64, u64>) -> int
    decreases m.dom().len(),
    when m.dom().finite()
{
    if m.dom().len() == 0 {
        0
    } else {
        let k = m.dom().choose();
        m[k] + sum_values(m.remove(k))
    }
}

/// Taking any present key out of the sum leaves the sum of the rest.
pub proof fn lemma_sum_remove(m: Map<u64, u64>, k: u64)
    requires
        m.dom().finite(),
        m.dom().contains(k),
    ensures
        sum_values(m) == m[k] + sum_values(m.remove(k)),
    decreases m.dom().len(),
{
    let k0 = m.dom().choose();
    assert(m.dom().contains(k0));
    if k0 == k {
    } else {
        let m0 = m.remove(k0);
        let mk = m.remove(k);
        lemma_sum_remove(m0, k);
        lemma_sum_remove(mk, k0);
        assert(m0.remove(k) =~= mk.remove(k0));
        assert(sum_values(m) == m[k0] + sum_values(m0));
        assert(sum_values(m0) == m[k] + sum_values(m0.remove(k)));
        assert(sum_values(mk) == m[k0] + sum_values(mk.remove(k0)));
    }
}

/// Inserting a fresh key adds its weight to the sum.
pub proof fn lemma_sum_insert(m: Map<u64, u64>, k: u64, v: u64)
    requires
        m.dom().finite(),
        !m.dom().contains(k),
    ensures
        sum_values(m.insert(k, v)) == sum_values(m) + v,
{
    let mi = m.insert(k, v);
    lemma_sum_remove(mi, k);
    assert(mi.remove(k) =~= m);
}

/// Weights are unsigned, so every partial sum is non-negative.
pub proof fn lemma_sum_nonneg(m: Map<u64, u64>)
    requires
        m.dom().finite(),
    ensures
        sum_values(m) >= 0,
    decreases m.dom().len(),
{
    if m.dom().len() > 0 {
        let k = m.dom().choose();
        assert(m.dom().contains(k));
        lemma_sum_nonneg(m.remove(k));
    }
}

/// The empty table sums to zero.
pub proof fn lemma_sum_empty()
    ensures
        sum_values(Map::<u64, u64>::empty()) == 0,
{
    assert(Map::<u64, u64>::empty().dom() =~= Set::<u64>::empty());
}

} // verus!
