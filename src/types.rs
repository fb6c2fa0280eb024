use vstd::prelude::*;

verus! {

/// The identifier of a node of the cluster.
pub type NodeId = u64;

/// The identifier of a log entry: its term and its index. Index 0 stands for
/// the position before the first entry.
#[derive(Clone, Copy, Debug, PartialEq, Eq, Structural)]
pub struct LogId {
    pub term: u64,
    pub index: u64,
}

/// Lexicographic order on log ids, term first.
pub open spec fn log_id_le(a: LogId, b: LogId) -> bool {
    a.term < b.term || (a.term == b.term && a.index <= b.index)
}

impl LogId {
    pub open spec fn zero_spec() -> LogId {
        LogId { term: 0, index: 0 }
    }

    /// The log id that stands before every entry.
    pub fn zero() -> (r: LogId)
        ensures
            r == LogId::zero_spec(),
    {
        LogId { term: 0, index: 0 }
    }

    /// Whether `self` is at least as recent as `other`, term first.
    pub fn is_at_least(&self, other: &LogId) -> (r: bool)
        ensures
            r == log_id_le(*other, *self),
    {
        self.term > other.term || (self.term == other.term && self.index >= other.index)
    }
}

} // verus!
