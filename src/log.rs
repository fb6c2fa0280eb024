use vstd::prelude::*;

use crate::membership::MembershipConfig;
use crate::messages::Entry;
use crate::messages::EntryPayload;
use crate::types::LogId;

verus! {

/// Whether the entries of `s` have consecutive indices, the first at least 1.
pub open spec fn contiguous(s: Seq<Entry>) -> bool {
    &&& s.len() > 0 ==> s[0].log_id.index >= 1
    &&& forall|i: int| 0 <= i < s.len() ==> #[trigger] s[i].log_id.index == s[0].log_id.index + i
}

/// Whether the entries of `s` follow `prev`, one index after another.
pub open spec fn follows(s: Seq<Entry>, prev: LogId) -> bool {
    forall|i: int| 0 <= i < s.len() ==> #[trigger] s[i].log_id.index == prev.index + 1 + i
}

/// The log id of the last entry of `s`, or the zero id when it is empty.
pub open spec fn last_id(s: Seq<Entry>) -> LogId {
    if s.len() == 0 {
        LogId::zero_spec()
    } else {
        s.last().log_id
    }
}

/// Whether the contiguous log `s` holds an entry of index `index`.
pub open spec fn has_index(s: Seq<Entry>, index: u64) -> bool {
    s.len() > 0 && s[0].log_id.index <= index < s[0].log_id.index + s.len()
}

/// The position of the entry of index `index` in the contiguous log `s`.
pub open spec fn pos_of(s: Seq<Entry>, index: u64) -> int {
    index - s[0].log_id.index
}

/// The term of the entry at `index` in `s`, if `s` holds one.
pub open spec fn term_at(s: Seq<Entry>, index: u64) -> Option<u64> {
    if has_index(s, index) {
        Some(s[pos_of(s, index)].log_id.term)
    } else {
        None
    }
}

/// The entries of `s` whose index is below `index`.
pub open spec fn entries_below(s: Seq<Entry>, index: u64) -> Seq<Entry> {
    if s.len() == 0 || index <= s[0].log_id.index {
        Seq::empty()
    } else if index >= s[0].log_id.index + s.len() {
        s
    } else {
        s.take(pos_of(s, index))
    }
}

/// The first position in `new` whose entry the log `s` does not hold with the
/// same term, or `new.len()` when it holds all of them.
pub open spec fn first_mismatch(s: Seq<Entry>, new: Seq<Entry>) -> int
    decreases new.len(),
{
    if new.len() == 0 {
        0
    } else if first_mismatch(s, new.drop_last()) < new.len() - 1 {
        first_mismatch(s, new.drop_last())
    } else if term_at(s, new.last().log_id.index) == Some(new.last().log_id.term) {
        new.len() as int
    } else {
        new.len() - 1
    }
}

/// The log after receiving `new`: unchanged when it holds every entry of
/// `new`, else cut before the first entry it does not hold, with the rest of
/// `new` appended.
pub open spec fn merged(s: Seq<Entry>, new: Seq<Entry>) -> Seq<Entry> {
    let k = first_mismatch(s, new);
    if k == new.len() {
        s
    } else {
        entries_below(s, new[k].log_id.index) + new.skip(k)
    }
}

/// The hint sent back on a failed consistency check: the log id of the last
/// entry whose index is at most `prev.index` and whose term differs from
/// `prev.term`, or the zero id when there is none.
pub open spec fn conflict_hint(s: Seq<Entry>, prev: LogId) -> LogId
    decreases s.len(),
{
    if s.len() == 0 {
        LogId::zero_spec()
    } else if s.last().log_id.index <= prev.index && s.last().log_id.term != prev.term {
        s.last().log_id
    } else {
        conflict_hint(s.drop_last(), prev)
    }
}

/// Whether `entries` follow `prev` one index after another, with room for
/// their indices: what a follower asks of an append request.
pub fn entries_follow(prev: LogId, entries: &Vec<Entry>) -> (r: bool)
    ensures
        r == (follows(entries@, prev) && prev.index + entries@.len() <= u64::MAX),
{
    if prev.index as u128 + entries.len() as u128 > u64::MAX as u128 {
        return false;
    }
    let mut i: usize = 0;
    while i < entries.len()
        invariant
            i <= entries.len(),
            prev.index + entries@.len() <= u64::MAX,
            forall|k: int| 0 <= k < i ==> #[trigger] entries@[k].log_id.index == prev.index + 1 + k,
        decreases entries.len() - i,
    {
        if entries[i].log_id.index != prev.index + 1 + i as u64 {
            return false;
        }
        i = i + 1;
    }
    true
}

/// The position of the last entry of `s` that holds a configuration, if any.
pub open spec fn last_config_pos(s: Seq<Entry>) -> Option<int>
    decreases s.len(),
{
    if s.len() == 0 {
        None
    } else if s.last().payload is ConfigChange {
        Some(s.len() - 1)
    } else {
        last_config_pos(s.drop_last())
    }
}

/// The configuration held by the last entry of `entries` that holds one: the
/// one a node takes after receiving them.
pub fn latest_membership(entries: &Vec<Entry>) -> (r: Option<MembershipConfig>)
    ensures
        (r is Some) == (last_config_pos(entries@) is Some),
        r matches Some(m) ==> entries@[last_config_pos(entries@).unwrap()].payload matches EntryPayload::ConfigChange(c)
            && m@ == c.membership@,
{
    let mut n: usize = entries.len();
    assert(entries@.take(n as int) == entries@);
    while n > 0
        invariant
            n <= entries.len(),
            last_config_pos(entries@) == last_config_pos(entries@.take(n as int)),
        decreases n,
    {
        assert(entries@.take(n as int).drop_last() == entries@.take(n - 1));
        if let EntryPayload::ConfigChange(c) = &entries[n - 1].payload {
            return Some(c.membership.duplicate());
        }
        n = n - 1;
    }
    None
}

/// A log held in memory, its entries at consecutive indices.
#[derive(Debug)]
pub struct MemLog {
    pub entries: Vec<Entry>,
}

impl View for MemLog {
    type V = Seq<Entry>;

    open spec fn view(&self) -> Seq<Entry> {
        self.entries@
    }
}

proof fn lemma_first_mismatch_bounds(s: Seq<Entry>, new: Seq<Entry>)
    ensures
        0 <= first_mismatch(s, new) <= new.len(),
        forall|i: int|
            0 <= i < first_mismatch(s, new) ==> term_at(s, #[trigger] new[i].log_id.index) == Some(
                new[i].log_id.term,
            ),
        first_mismatch(s, new) < new.len() ==> term_at(
            s,
            new[first_mismatch(s, new)].log_id.index,
        ) != Some(new[first_mismatch(s, new)].log_id.term),
    decreases new.len(),
{
    if new.len() > 0 {
        lemma_first_mismatch_bounds(s, new.drop_last());
        let k = first_mismatch(s, new.drop_last());
        assert forall|i: int| 0 <= i < first_mismatch(s, new) implies term_at(
            s,
            #[trigger] new[i].log_id.index,
        ) == Some(new[i].log_id.term) by {
            if i < new.len() - 1 {
                assert(new[i] == new.drop_last()[i]);
            }
        }
        if k < new.len() - 1 {
            assert(new[k] == new.drop_last()[k]);
        }
    }
}

impl MemLog {
    pub open spec fn wf(&self) -> bool {
        contiguous(self@)
    }

    /// An empty log.
    pub fn new() -> (r: MemLog)
        ensures
            r@ == Seq::<Entry>::empty(),
            r.wf(),
    {
        MemLog { entries: Vec::new() }
    }

    /// The log id of the last entry, or the zero id when the log is empty.
    pub fn last_log_id(&self) -> (r: LogId)
        ensures
            r == last_id(self@),
    {
        if self.entries.len() == 0 {
            LogId::zero()
        } else {
            self.entries[self.entries.len() - 1].log_id
        }
    }

    /// The term of the entry at `index`, if the log holds one.
    pub fn term_at(&self, index: u64) -> (r: Option<u64>)
        requires
            self.wf(),
        ensures
            r == term_at(self@, index),
    {
        if self.entries.len() == 0 {
            return None;
        }
        let first = self.entries[0].log_id.index;
        if index < first || index - first >= self.entries.len() as u64 {
            return None;
        }
        let p = (index - first) as usize;
        Some(self.entries[p].log_id.term)
    }

    /// The hint for a failed consistency check against `prev`.
    pub fn conflict_hint(&self, prev: LogId) -> (r: LogId)
        ensures
            r == conflict_hint(self@, prev),
    {
        let mut n: usize = self.entries.len();
        assert(self@.take(n as int) == self@);
        while n > 0
            invariant
                n <= self.entries.len(),
                conflict_hint(self@, prev) == conflict_hint(self@.take(n as int), prev),
            decreases n,
        {
            let e = self.entries[n - 1].log_id;
            assert(self@.take(n as int).drop_last() == self@.take(n - 1));
            if e.index <= prev.index && e.term != prev.term {
                return e;
            }
            n = n - 1;
        }
        LogId::zero()
    }

    /// Receives the entries that follow `prev` in the leader's log: cuts the
    /// log before the first of them that it does not hold with the same
    /// term, and appends the rest.
    pub fn merge_entries(&mut self, prev: LogId, new: Vec<Entry>)
        requires
            old(self).wf(),
            follows(new@, prev),
            prev.index == 0 || term_at(old(self)@, prev.index) == Some(prev.term),
            prev.index + new@.len() <= u64::MAX,
        ensures
            final(self).wf(),
            final(self)@ == merged(old(self)@, new@),
    {
        let ghost s = self@;
        let ghost nw = new@;
        proof {
            lemma_first_mismatch_bounds(s, nw);
        }
        let mut k: usize = 0;
        while k < new.len()
            invariant
                k <= new.len(),
                self@ == s,
                self.wf(),
                new@ == nw,
                forall|i: int| 0 <= i < k ==> term_at(s, #[trigger] nw[i].log_id.index) == Some(nw[i].log_id.term),
                k <= first_mismatch(s, nw),
            ensures
                k < new.len() ==> term_at(s, nw[k as int].log_id.index) != Some(nw[k as int].log_id.term),
            decreases new.len() - k,
        {
            let id = new[k].log_id;
            if self.term_at(id.index) != Some(id.term) {
                break;
            }
            proof {
                lemma_first_mismatch_bounds(s, nw);
            }
            k = k + 1;
        }
        assert(k == first_mismatch(s, nw)) by {
            lemma_first_mismatch_bounds(s, nw);
            if k < first_mismatch(s, nw) {
                assert(term_at(s, nw[k as int].log_id.index) == Some(nw[k as int].log_id.term));
            }
        }
        if k == new.len() {
            return;
        }
        let cut = new[k].log_id.index;
        if self.entries.len() > 0 {
            let first = self.entries[0].log_id.index;
            if cut <= first {
                self.entries.clear();
            } else if cut - first < self.entries.len() as u64 {
                self.entries.truncate((cut - first) as usize);
            }
        }
        assert(self@ == entries_below(s, cut));
        proof {
            // The entry before the cut is either `prev` or a held entry of `new`.
            if self@.len() > 0 {
                if k == 0 {
                    assert(cut == prev.index + 1);
                } else {
                    assert(term_at(s, nw[k - 1].log_id.index) == Some(nw[k - 1].log_id.term));
                    assert(nw[k - 1].log_id.index + 1 == cut);
                }
                assert(self@.last().log_id.index + 1 == cut);
            }
        }
        let ghost base = self@;
        let mut rest = new;
        let mut tail = rest.split_off(k);
        assert(tail@ == nw.skip(k as int));
        self.entries.append(&mut tail);
        assert(self@ == base + nw.skip(k as int));
        assert(self.wf()) by {
            assert forall|i: int| 0 <= i < self@.len() implies #[trigger] self@[i].log_id.index
                == self@[0].log_id.index + i by {
                if i >= base.len() {
                    assert(self@[i] == nw[k + i - base.len()]);
                }
                if base.len() == 0 {
                    assert(self@[0] == nw[k as int]);
                }
            }
        }
    }

    /// Appends `e` right after the last entry.
    pub fn append_entry(&mut self, e: Entry)
        requires
            old(self).wf(),
            e.log_id.index == last_id(old(self)@).index + 1,
        ensures
            final(self).wf(),
            final(self)@ == old(self)@.push(e),
    {
        self.entries.push(e);
    }
}

} // verus!
