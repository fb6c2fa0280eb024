use vstd::prelude::*;

use crate::membership::MembershipConfig;
use crate::nodes::majority_of;
use crate::types::LogId;
use crate::types::NodeId;

verus! {

/// How many of the log ids in `s` have an index of at least `index`.
pub open spec fn count_at_least(s: Seq<LogId>, index: u64) -> nat
    decreases s.len(),
{
    if s.len() == 0 {
        0
    } else {
        count_at_least(s.drop_last(), index) + (if s.last().index >= index { 1nat } else { 0nat })
    }
}

/// Whether a majority of the log ids in `s` reach `index`.
pub open spec fn majority_reaches(s: Seq<LogId>, index: u64) -> bool {
    count_at_least(s, index) >= majority_of(s.len())
}

/// Whether position `k` holds the majority-matched log id of `s`: an element
/// reached by a majority, with the greatest index of all such elements, and
/// the first of them.
pub open spec fn is_majority_matched_at(s: Seq<LogId>, k: int) -> bool {
    &&& 0 <= k < s.len()
    &&& majority_reaches(s, s[k].index)
    &&& forall|i: int| 0 <= i < s.len() && majority_reaches(s, #[trigger] s[i].index) ==> s[i].index <= s[k].index
    &&& forall|i: int| 0 <= i < k && majority_reaches(s, #[trigger] s[i].index) ==> s[i].index < s[k].index
}

/// Whether `r` is the majority-matched log id of `s`.
pub open spec fn is_majority_matched(s: Seq<LogId>, r: LogId) -> bool {
    exists|k: int| is_majority_matched_at(s, k) && s[k] == r
}

/// The log id that a peer has matched, by the first record of `matched` for
/// it, or the zero id when there is none.
pub open spec fn matched_of(matched: Seq<(NodeId, LogId)>, id: NodeId) -> LogId
    decreases matched.len(),
{
    if matched.len() == 0 {
        LogId::zero_spec()
    } else if matched[0].0 == id {
        matched[0].1
    } else {
        matched_of(matched.drop_first(), id)
    }
}

/// The matched log ids of the voters `group`: the leader counts with its own
/// last log id.
pub open spec fn group_matched(
    group: Seq<NodeId>,
    leader: NodeId,
    leader_last: LogId,
    matched: Seq<(NodeId, LogId)>,
) -> Seq<LogId> {
    Seq::new(
        group.len(),
        |i: int|
            if group[i] == leader {
                leader_last
            } else {
                matched_of(matched, group[i])
            },
    )
}

/// How many of the log ids in `s` have an index of at least `index`.
fn count_reaching(s: &Vec<LogId>, index: u64) -> (r: usize)
    ensures
        r == count_at_least(s@, index),
{
    let mut n: usize = 0;
    let mut i: usize = 0;
    while i < s.len()
        invariant
            i <= s.len(),
            n == count_at_least(s@.take(i as int), index),
            n <= i,
        decreases s.len() - i,
    {
        assert(s@.take(i + 1).drop_last() == s@.take(i as int));
        if s[i].index >= index {
            n = n + 1;
        }
        i = i + 1;
    }
    assert(s@.take(s@.len() as int) == s@);
    n
}

/// The majority-matched log id of `s`: the classical value at position
/// `ceil(n/2) - 1` of the indices sorted in descending order.
pub fn majority_matched(s: &Vec<LogId>) -> (r: LogId)
    requires
        s@.len() > 0,
    ensures
        is_majority_matched(s@, r),
{
    let maj: usize = s.len() / 2 + 1;
    let mut best: Option<LogId> = None;
    let ghost mut bk: int = 0;
    let mut i: usize = 0;
    while i < s.len()
        invariant
            i <= s.len(),
            maj == majority_of(s@.len()),
            best matches Some(b) ==> 0 <= bk < i && s@[bk] == b && majority_reaches(s@, b.index),
            best matches Some(b) ==> forall|k: int| 0 <= k < bk && majority_reaches(s@, #[trigger] s@[k].index) ==> s@[k].index < b.index,
            forall|k: int| 0 <= k < i && majority_reaches(s@, #[trigger] s@[k].index) ==> (
            best matches Some(b) && s@[k].index <= b.index),
        decreases s.len() - i,
    {
        let c = count_reaching(s, s[i].index);
        if c >= maj {
            let better = match best {
                None => true,
                Some(b) => s[i].index > b.index,
            };
            if better {
                best = Some(s[i]);
                proof {
                    bk = i as int;
                }
            }
        }
        i = i + 1;
    }
    match best {
        Some(b) => {
            assert(is_majority_matched_at(s@, bk));
            b
        },
        None => {
            // The least index is reached by every element, hence by a majority.
            proof {
                let m = choose_min_index(s@);
                assert(count_at_least(s@, s@[m].index) == s@.len()) by {
                    lemma_all_reach(s@, s@[m].index);
                }
            }
            s[0]
        },
    }
}

/// The position of an element of `s` with the least index.
proof fn choose_min_index(s: Seq<LogId>) -> (m: int)
    requires
        s.len() > 0,
    ensures
        0 <= m < s.len(),
        forall|k: int| 0 <= k < s.len() ==> s[m].index <= #[trigger] s[k].index,
    decreases s.len(),
{
    if s.len() == 1 {
        0
    } else {
        let m = choose_min_index(s.drop_last());
        assert(forall|k: int| 0 <= k < s.len() - 1 ==> s.drop_last()[k] == s[k]);
        if s.last().index < s[m].index {
            (s.len() - 1) as int
        } else {
            m
        }
    }
}

proof fn lemma_all_reach(s: Seq<LogId>, index: u64)
    requires
        forall|k: int| 0 <= k < s.len() ==> index <= #[trigger] s[k].index,
    ensures
        count_at_least(s, index) == s.len(),
    decreases s.len(),
{
    if s.len() > 0 {
        assert(forall|k: int| 0 <= k < s.len() - 1 ==> s.drop_last()[k] == s[k]);
        lemma_all_reach(s.drop_last(), index);
    }
}

/// The log id that `id` has matched, by the first record of `matched` for it.
fn lookup_matched(matched: &Vec<(NodeId, LogId)>, id: NodeId) -> (r: LogId)
    ensures
        r == matched_of(matched@, id),
{
    let mut i: usize = 0;
    assert(matched@.skip(0) == matched@);
    while i < matched.len()
        invariant
            i <= matched.len(),
            matched_of(matched@, id) == matched_of(matched@.skip(i as int), id),
        decreases matched.len() - i,
    {
        assert(matched@.skip(i as int).drop_first() == matched@.skip(i + 1));
        if matched[i].0 == id {
            return matched[i].1;
        }
        i = i + 1;
    }
    LogId::zero()
}

/// The matched log ids of the voters `group`.
fn collect_group(
    group: &Vec<NodeId>,
    leader: NodeId,
    leader_last: LogId,
    matched: &Vec<(NodeId, LogId)>,
) -> (r: Vec<LogId>)
    ensures
        r@ == group_matched(group@, leader, leader_last, matched@),
{
    let mut r: Vec<LogId> = Vec::new();
    let mut i: usize = 0;
    while i < group.len()
        invariant
            i <= group.len(),
            r@ == group_matched(group@, leader, leader_last, matched@).take(i as int),
        decreases group.len() - i,
    {
        let v = if group[i] == leader {
            leader_last
        } else {
            lookup_matched(matched, group[i])
        };
        r.push(v);
        i = i + 1;
    }
    r
}

/// The leader's commit index after its peers report what they matched.
///
/// In each group of voters the leader takes the majority-matched log id,
/// counting itself with `leader_last`; in joint consensus the one of lower
/// index of the two groups. It commits that index only when the entry there
/// is of the current term and the index is greater than `commit_index`.
pub fn calculate_commit_index(
    membership: &MembershipConfig,
    leader: NodeId,
    leader_last: LogId,
    current_term: u64,
    commit_index: u64,
    matched: &Vec<(NodeId, LogId)>,
) -> (r: u64)
    requires
        membership@.members.len() > 0,
        membership@.after matches Some(a) ==> a.len() > 0,
    ensures
        r >= commit_index,
        r > commit_index ==> r == leader_commit_candidate(membership@.members, membership@.after, leader, leader_last, matched@).index
            && leader_commit_candidate(membership@.members, membership@.after, leader, leader_last, matched@).term == current_term,
        r > commit_index ==> majority_reaches(
            group_matched(membership@.members, leader, leader_last, matched@),
            r,
        ),
        r > commit_index ==> (membership@.after matches Some(a) ==> majority_reaches(
            group_matched(a, leader, leader_last, matched@),
            r,
        )),
        (leader_commit_candidate(membership@.members, membership@.after, leader, leader_last, matched@).term == current_term
            && leader_commit_candidate(membership@.members, membership@.after, leader, leader_last, matched@).index > commit_index)
            ==> r > commit_index,
{
    let g0 = collect_group(&membership.members, leader, leader_last, matched);
    let c0 = majority_matched(&g0);
    let cand = match &membership.members_after_consensus {
        None => c0,
        Some(a) => {
            let g1 = collect_group(a, leader, leader_last, matched);
            let c1 = majority_matched(&g1);
            proof {
                lemma_majority_matched_unique(g0@, c0, majority_matched_spec(g0@));
                lemma_majority_matched_unique(g1@, c1, majority_matched_spec(g1@));
                if c1.index <= c0.index {
                    lemma_reach_monotone(g0@, c0.index, c1.index);
                } else {
                    lemma_reach_monotone(g1@, c1.index, c0.index);
                }
            }
            if c1.index < c0.index {
                c1
            } else {
                c0
            }
        },
    };
    proof {
        lemma_majority_matched_unique(g0@, c0, majority_matched_spec(g0@));
    }
    if cand.term == current_term && cand.index > commit_index {
        cand.index
    } else {
        commit_index
    }
}

/// The majority-matched log id of `s`, as a spec value.
pub open spec fn majority_matched_spec(s: Seq<LogId>) -> LogId {
    choose|r: LogId| is_majority_matched(s, r)
}

/// The log id that a leader may commit: the majority-matched one of its voters
/// or, in joint consensus, the one of lower index of the two groups.
pub open spec fn leader_commit_candidate(
    members: Seq<NodeId>,
    after: Option<Seq<NodeId>>,
    leader: NodeId,
    leader_last: LogId,
    matched: Seq<(NodeId, LogId)>,
) -> LogId {
    let c0 = majority_matched_spec(group_matched(members, leader, leader_last, matched));
    match after {
        None => c0,
        Some(a) => {
            let c1 = majority_matched_spec(group_matched(a, leader, leader_last, matched));
            if c1.index < c0.index {
                c1
            } else {
                c0
            }
        },
    }
}

proof fn lemma_majority_matched_unique(s: Seq<LogId>, r: LogId, q: LogId)
    requires
        is_majority_matched(s, r),
        q == majority_matched_spec(s),
    ensures
        q == r,
{
    let ir = choose|k: int| is_majority_matched_at(s, k) && s[k] == r;
    assert(is_majority_matched(s, q));
    let iq = choose|k: int| is_majority_matched_at(s, k) && s[k] == q;
    assert(s[ir].index == s[iq].index);
    if ir < iq {
        assert(majority_reaches(s, s[ir].index));
    } else if iq < ir {
        assert(majority_reaches(s, s[iq].index));
    }
}

proof fn lemma_reach_monotone(s: Seq<LogId>, hi: u64, lo: u64)
    requires
        lo <= hi,
    ensures
        count_at_least(s, hi) <= count_at_least(s, lo),
    decreases s.len(),
{
    if s.len() > 0 {
        lemma_reach_monotone(s.drop_last(), hi, lo);
    }
}

} // verus!
