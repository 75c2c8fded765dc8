//! Sets of notifier ids, and the ascending order they are read out in.

use std::collections::BTreeSet;
use vstd::prelude::*;
use vstd::std_specs::cmp::OrdSpec;
use vstd::std_specs::iter::IteratorSpec;

verus! {

broadcast use vstd::laws_cmp::group_laws_cmp;

/// Strictly ascending: every id is smaller than the ones after it.
pub open spec fn ascending(ids: Seq<i64>) -> bool {
    forall|i: int, j: int| 0 <= i < j < ids.len() ==> ids[i] < ids[j]
}

/// How often an id occurs.
pub open spec fn occurrences(ids: Seq<i64>, id: i64) -> nat
    decreases ids.len(),
{
    if ids.len() == 0 {
        0
    } else {
        let last: nat = if ids.last() == id {
            1
        } else {
            0
        };
        occurrences(ids.drop_last(), id) + last
    }
}

/// An ascending sequence holds each of its ids once, and no other id.
pub proof fn lemma_ascending_occurrences(ids: Seq<i64>, id: i64)
    requires
        ascending(ids),
    ensures
        occurrences(ids, id) == (if ids.contains(id) {
            1nat
        } else {
            0nat
        }),
    decreases ids.len(),
{
    if ids.len() > 0 {
        let front = ids.drop_last();
        lemma_ascending_occurrences(front, id);
        if ids.last() != id && ids.contains(id) {
            let k = choose|k: int| 0 <= k < ids.len() && ids[k] == id;
            assert(front[k] == id);
        }
    }
}

/// Two ascending sequences with the same ids are the same sequence: the
/// order of a round of messages is settled by who is in it.
pub proof fn lemma_ascending_unique(a: Seq<i64>, b: Seq<i64>)
    requires
        ascending(a),
        ascending(b),
        a.to_set() == b.to_set(),
    ensures
        a == b,
    decreases a.len(),
{
    if a.len() == 0 {
        if b.len() > 0 {
            assert(b.to_set().contains(b[0]));
        }
    } else {
        let top = a.last();
        assert(a.to_set().contains(top));
        let other = b.last();
        assert(b.to_set().contains(other));
        let ka = choose|k: int| 0 <= k < a.len() && a[k] == other;
        let kb = choose|k: int| 0 <= k < b.len() && b[k] == top;
        assert(a[ka] == other && b[kb] == top);
        let fa = a.drop_last();
        let fb = b.drop_last();
        assert forall|x: i64| fa.to_set().contains(x) <==> fb.to_set().contains(x) by {
            if fa.contains(x) {
                let k = choose|k: int| 0 <= k < fa.len() && fa[k] == x;
                assert(a[k] == x);
                assert(a.to_set().contains(x));
                let m = choose|m: int| 0 <= m < b.len() && b[m] == x;
                assert(fb[m] == x);
            }
            if fb.contains(x) {
                let k = choose|k: int| 0 <= k < fb.len() && fb[k] == x;
                assert(b[k] == x);
                assert(b.to_set().contains(x));
                let m = choose|m: int| 0 <= m < a.len() && a[m] == x;
                assert(fa[m] == x);
            }
        }
        assert(fa.to_set() =~= fb.to_set());
        lemma_ascending_unique(fa, fb);
        assert(a =~= fa.push(top));
    }
}

/// The ids of a set, in ascending order.
pub fn ids_of(set: &BTreeSet<i64>) -> (ids: Vec<i64>)
    ensures
        ids@.to_set() == set@,
        ascending(ids@),
{
    let mut ids: Vec<i64> = Vec::new();
    for id in it: set.iter()
        invariant
            ids@.len() == it.index(),
            forall|j: int| 0 <= j < ids.len() ==> ids@[j] == *it.seq()[j],
            it.seq() == set.iter().remaining(),
    {
        ids.push(*id);
    }
    proof {
        let yielded = set.iter().remaining();
        assert(ids@ =~= yielded.unref());
        vstd::std_specs::btree::axiom_increasing_seq_meaning(yielded);
        assert forall|i: int, j: int| 0 <= i < j < ids@.len() implies ids@[i] < ids@[j] by {
            assert(OrdSpec::cmp_spec(&yielded[i], &yielded[j]) is Less);
        }
    }
    ids
}

} // verus!
