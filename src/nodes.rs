use vstd::prelude::*;

use crate::types::NodeId;

verus! {

/// A set of node ids held as a strictly increasing sequence, so that two
/// sets are equal exactly when their sequences are.
pub open spec fn strictly_sorted(s: Seq<NodeId>) -> bool {
    forall|i: int, j: int| 0 <= i < j < s.len() ==> s[i] < s[j]
}

/// How many elements of `s` lie in `g`.
pub open spec fn count_in(s: Seq<NodeId>, g: Set<NodeId>) -> nat
    decreases s.len(),
{
    if s.len() == 0 {
        0
    } else {
        count_in(s.drop_last(), g) + (if g.contains(s.last()) { 1nat } else { 0nat })
    }
}

/// The size of a majority of `n` voters.
pub open spec fn majority_of(n: nat) -> nat {
    n / 2 + 1
}

/// Whether the members of `g` form a majority of the voters `s`.
pub open spec fn is_majority(s: Seq<NodeId>, g: Set<NodeId>) -> bool {
    count_in(s, g) >= majority_of(s.len())
}

/// Whether `x` is in the set `v`.
pub fn set_contains(v: &Vec<NodeId>, x: NodeId) -> (r: bool)
    ensures
        r == v@.contains(x),
{
    let mut i: usize = 0;
    while i < v.len()
        invariant
            i <= v.len(),
            forall|k: int| 0 <= k < i ==> v@[k] != x,
        decreases v.len() - i,
    {
        if v[i] == x {
            return true;
        }
        i = i + 1;
    }
    false
}

/// The union of two sets.
pub fn set_union(a: &Vec<NodeId>, b: &Vec<NodeId>) -> (r: Vec<NodeId>)
    requires
        strictly_sorted(a@),
        strictly_sorted(b@),
    ensures
        strictly_sorted(r@),
        r@.to_set() == a@.to_set().union(b@.to_set()),
{
    let mut r: Vec<NodeId> = Vec::new();
    let mut i: usize = 0;
    let mut j: usize = 0;
    while i < a.len() || j < b.len()
        invariant
            strictly_sorted(a@),
            strictly_sorted(b@),
            i <= a.len(),
            j <= b.len(),
            strictly_sorted(r@),
            r@.to_set() == a@.subrange(0, i as int).to_set().union(
                b@.subrange(0, j as int).to_set(),
            ),
            i < a.len() && r@.len() > 0 ==> r@.last() < a@[i as int],
            j < b.len() && r@.len() > 0 ==> r@.last() < b@[j as int],
        decreases a.len() + b.len() - i - j,
    {
        let ghost old_r = r@;
        let ghost ai = a@.subrange(0, i as int);
        let ghost bj = b@.subrange(0, j as int);
        if j >= b.len() || (i < a.len() && a[i] < b[j]) {
            let x = a[i];
            r.push(x);
            i = i + 1;
            proof {
                assert(a@.subrange(0, i as int) == ai.push(x));
                old_r.lemma_push_to_set_commute(x);
                ai.lemma_push_to_set_commute(x);
                assert(r@.to_set() =~= a@.subrange(0, i as int).to_set().union(bj.to_set()));
            }
        } else if i >= a.len() || b[j] < a[i] {
            let x = b[j];
            r.push(x);
            j = j + 1;
            proof {
                assert(b@.subrange(0, j as int) == bj.push(x));
                old_r.lemma_push_to_set_commute(x);
                bj.lemma_push_to_set_commute(x);
                assert(r@.to_set() =~= ai.to_set().union(b@.subrange(0, j as int).to_set()));
            }
        } else {
            let x = a[i];
            r.push(x);
            i = i + 1;
            j = j + 1;
            proof {
                assert(a@.subrange(0, i as int) == ai.push(x));
                assert(b@.subrange(0, j as int) == bj.push(x));
                old_r.lemma_push_to_set_commute(x);
                ai.lemma_push_to_set_commute(x);
                bj.lemma_push_to_set_commute(x);
                assert(r@.to_set() =~= a@.subrange(0, i as int).to_set().union(
                    b@.subrange(0, j as int).to_set(),
                ));
            }
        }
    }
    assert(a@.subrange(0, a@.len() as int) == a@);
    assert(b@.subrange(0, b@.len() as int) == b@);
    r
}

/// The set `v` with `x` added.
pub fn set_insert(v: &Vec<NodeId>, x: NodeId) -> (r: Vec<NodeId>)
    requires
        strictly_sorted(v@),
    ensures
        strictly_sorted(r@),
        r@.to_set() == v@.to_set().insert(x),
{
    let single = vec![x];
    assert(single@.to_set() =~= Set::empty().insert(x)) by {
        assert(single@ == seq![x]);
        assert forall|y: NodeId| single@.contains(y) <==> y == x by {
            if single@.contains(y) {
                let k = choose|k: int| 0 <= k < single@.len() && single@[k] == y;
                assert(k == 0);
            }
            if y == x {
                assert(single@[0] == y);
            }
        }
    }
    let r = set_union(v, &single);
    assert(r@.to_set() =~= v@.to_set().insert(x));
    r
}

/// The set of the ids in `ids`, in any order and with repetitions.
pub fn node_set_from(ids: &Vec<NodeId>) -> (r: Vec<NodeId>)
    ensures
        strictly_sorted(r@),
        r@.to_set() == ids@.to_set(),
{
    let mut r: Vec<NodeId> = Vec::new();
    let mut i: usize = 0;
    while i < ids.len()
        invariant
            i <= ids.len(),
            strictly_sorted(r@),
            r@.to_set() == ids@.subrange(0, i as int).to_set(),
        decreases ids.len() - i,
    {
        let ghost pre = ids@.subrange(0, i as int);
        r = set_insert(&r, ids[i]);
        i = i + 1;
        proof {
            assert(ids@.subrange(0, i as int) == pre.push(ids@[i - 1]));
            pre.lemma_push_to_set_commute(ids@[i - 1]);
        }
    }
    assert(ids@.subrange(0, ids@.len() as int) == ids@);
    assert(r@.to_set() =~= ids@.to_set());
    r
}

/// The ids of `a` that are not in `b`.
pub fn set_difference(a: &Vec<NodeId>, b: &Vec<NodeId>) -> (r: Vec<NodeId>)
    requires
        strictly_sorted(a@),
    ensures
        strictly_sorted(r@),
        r@.to_set() == a@.to_set().difference(b@.to_set()),
{
    let mut r: Vec<NodeId> = Vec::new();
    let mut i: usize = 0;
    while i < a.len()
        invariant
            i <= a.len(),
            strictly_sorted(a@),
            strictly_sorted(r@),
            r@.len() > 0 && i < a.len() ==> r@.last() < a@[i as int],
            r@.to_set() == a@.subrange(0, i as int).to_set().difference(b@.to_set()),
        decreases a.len() - i,
    {
        let ghost pre = a@.subrange(0, i as int);
        let ghost old_r = r@;
        let x = a[i];
        if !set_contains(b, x) {
            r.push(x);
            proof {
                old_r.lemma_push_to_set_commute(x);
            }
        }
        i = i + 1;
        proof {
            assert(a@.subrange(0, i as int) == pre.push(x));
            pre.lemma_push_to_set_commute(x);
            assert(r@.to_set() =~= a@.subrange(0, i as int).to_set().difference(b@.to_set()));
        }
    }
    assert(a@.subrange(0, a@.len() as int) == a@);
    r
}

/// How many of the ids in `s` are in `g`.
pub fn count_members_in(s: &Vec<NodeId>, g: &Vec<NodeId>) -> (r: u64)
    ensures
        r == count_in(s@, g@.to_set()),
{
    let mut n: u64 = 0;
    let mut i: usize = 0;
    while i < s.len()
        invariant
            i <= s.len(),
            n == count_in(s@.subrange(0, i as int), g@.to_set()),
            n <= i,
        decreases s.len() - i,
    {
        let ghost pre = s@.subrange(0, i as int);
        assert(s@.subrange(0, i + 1).drop_last() == pre);
        if set_contains(g, s[i]) {
            n = n + 1;
        }
        i = i + 1;
    }
    assert(s@.subrange(0, s@.len() as int) == s@);
    n
}

/// Whether the ids of `g` form a majority of the voters `s`.
pub fn has_majority(s: &Vec<NodeId>, g: &Vec<NodeId>) -> (r: bool)
    ensures
        r == is_majority(s@, g@.to_set()),
{
    let c = count_members_in(s, g);
    c >= (s.len() / 2) as u64 + 1
}

proof fn lemma_count_overlap(s: Seq<NodeId>, a: Set<NodeId>, b: Set<NodeId>)
    ensures
        count_in(s, a) + count_in(s, b) <= s.len() + count_in(s, a.intersect(b)),
    decreases s.len(),
{
    if s.len() > 0 {
        lemma_count_overlap(s.drop_last(), a, b);
    }
}

proof fn lemma_count_witness(s: Seq<NodeId>, g: Set<NodeId>)
    requires
        count_in(s, g) > 0,
    ensures
        exists|i: int| 0 <= i < s.len() && g.contains(#[trigger] s[i]),
    decreases s.len(),
{
    if g.contains(s.last()) {
        assert(g.contains(s[s.len() - 1]));
    } else {
        lemma_count_witness(s.drop_last(), g);
        let i = choose|i: int| 0 <= i < s.len() - 1 && g.contains(#[trigger] s.drop_last()[i]);
        assert(s.drop_last()[i] == s[i]);
    }
}

/// Two majorities of the same voters share a voter.
pub proof fn lemma_majorities_intersect(s: Seq<NodeId>, a: Set<NodeId>, b: Set<NodeId>)
    requires
        is_majority(s, a),
        is_majority(s, b),
    ensures
        exists|v: NodeId| s.contains(v) && a.contains(v) && b.contains(v),
{
    lemma_count_overlap(s, a, b);
    lemma_count_witness(s, a.intersect(b));
    let i = choose|i: int| 0 <= i < s.len() && a.intersect(b).contains(#[trigger] s[i]);
    assert(s.contains(s[i]));
}

} // verus!
