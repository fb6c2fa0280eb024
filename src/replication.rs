use vstd::prelude::*;

use crate::messages::AppendEntriesRequest;
use crate::messages::ConflictOpt;
use crate::messages::Entry;
use crate::types::LogId;
use crate::types::NodeId;

verus! {

/// The mode of a replication stream to one peer.
#[derive(Clone, Copy, Debug, PartialEq, Eq, Structural)]
pub enum TargetReplState {
    /// Entries are shipped as the leader appends them.
    LineRate,
    /// The peer is behind; entries are read from storage in batches.
    Lagging,
    /// The peer is too far behind; a snapshot is streamed to it.
    Snapshotting,
    Shutdown,
}

/// What a replication stream reports to its leader.
#[derive(Clone, Copy, Debug, PartialEq, Eq, Structural)]
pub enum ReplicaEvent {
    /// The peer has matched the leader's log up to `matched`.
    UpdateMatchIndex { target: NodeId, matched: LogId },
    /// The peer answered with a greater term: the leader steps down.
    RevertToFollower { target: NodeId, term: u64 },
}

/// What a leader tells a replication stream.
#[derive(Clone, Copy, Debug, PartialEq, Eq, Structural)]
pub enum RaftEvent {
    /// A new entry at `index` to replicate, with the leader's commit index.
    Replicate { index: u64, commit_index: u64 },
    /// The leader's commit index moved.
    UpdateCommitIndex { commit_index: u64 },
    /// The stream is to stop.
    Terminate,
}

/// What a stream does after a failed append.
#[derive(Clone, Copy, Debug, PartialEq, Eq, Structural)]
pub enum ConflictStep {
    /// Nothing to change.
    Ignore,
    /// The peer has a greater term; the event goes to the leader.
    Revert(ReplicaEvent),
    /// The stream moved on; the event goes to the leader.
    Report(ReplicaEvent),
    /// The term of the leader's entry at this index is needed next.
    FetchTerm(u64),
}

/// What a lagging stream does next.
#[derive(Clone, Copy, Debug, PartialEq, Eq, Structural)]
pub enum LaggingStep {
    ToSnapshotting,
    ToLineRate,
    /// Read the entries of indices `[start, stop)` from storage and send them.
    Fetch { start: u64, stop: u64 },
}

/// The state of the replication stream of a leader to one peer.
#[derive(Clone, Copy, Debug, PartialEq, Eq, Structural)]
pub struct ReplicationCore {
    pub target: NodeId,
    /// The leader's term.
    pub term: u64,
    pub target_state: TargetReplState,
    /// The index of the next entry to send.
    pub next_index: u64,
    /// The last log id known to be replicated on the peer.
    pub matched: LogId,
    /// The index of the leader's last entry.
    pub last_log_index: u64,
    /// The leader's commit index.
    pub commit_index: u64,
}

/// Whether some entry of `s` is a purge marker.
pub open spec fn has_purged_marker(s: Seq<Entry>) -> bool {
    exists|i: int| 0 <= i < s.len() && (#[trigger] s[i]).payload is PurgedMarker
}

/// Whether some entry of `entries` is a purge marker: the log was compacted
/// there, and the peer needs a snapshot.
pub fn contains_purged_marker(entries: &Vec<Entry>) -> (r: bool)
    ensures
        r == has_purged_marker(entries@),
{
    let mut i: usize = 0;
    while i < entries.len()
        invariant
            i <= entries.len(),
            forall|k: int| 0 <= k < i ==> !((#[trigger] entries@[k]).payload is PurgedMarker),
        decreases entries.len() - i,
    {
        if matches!(entries[i].payload, crate::messages::EntryPayload::PurgedMarker) {
            return true;
        }
        i = i + 1;
    }
    false
}

/// Whether a non-voter that matched `matched_index` is close enough to the
/// leader's last index to join the cluster.
pub fn is_ready_to_join(matched_index: u64, last_log_index: u64, slack: u64) -> (r: bool)
    ensures
        r == (matched_index + slack >= last_log_index),
{
    matched_index >= last_log_index || last_log_index - matched_index <= slack
}

impl ReplicationCore {
    /// A stream to `target` for a leader of `term` whose log ends at
    /// `last_log_index`: it starts at line rate, with nothing matched.
    pub fn new(target: NodeId, term: u64, last_log_index: u64, commit_index: u64) -> (r:
        ReplicationCore)
        requires
            last_log_index < u64::MAX,
        ensures
            r.target == target,
            r.term == term,
            r.target_state == TargetReplState::LineRate,
            r.next_index == last_log_index + 1,
            r.matched == LogId::zero_spec(),
            r.last_log_index == last_log_index,
            r.commit_index == commit_index,
    {
        ReplicationCore {
            target,
            term,
            target_state: TargetReplState::LineRate,
            next_index: last_log_index + 1,
            matched: LogId::zero(),
            last_log_index,
            commit_index,
        }
    }

    /// Whether the peer is so far behind the commit index that it needs a
    /// snapshot.
    pub fn needs_snapshot(&self, threshold: u64) -> (r: bool)
        ensures
            r == (self.commit_index >= self.matched.index && self.commit_index
                - self.matched.index >= threshold),
    {
        self.commit_index >= self.matched.index && self.commit_index - self.matched.index
            >= threshold
    }

    /// Whether every committed entry has been sent.
    pub fn is_up_to_speed(&self) -> (r: bool)
        ensures
            r == (self.next_index > self.commit_index),
    {
        self.next_index > self.commit_index
    }

    /// Records a successful append whose last entry was `last_sent` (none for
    /// a heartbeat), and falls back to lagging when the peer is more than
    /// `lag_threshold` entries behind.
    pub fn handle_append_success(&mut self, last_sent: Option<LogId>, lag_threshold: u64) -> (r:
        Option<ReplicaEvent>)
        requires
            last_sent matches Some(id) ==> id.index < u64::MAX,
        ensures
            last_sent is None ==> r is None && *final(self) == *old(self),
            last_sent matches Some(id) ==> {
                &&& final(self).matched == id
                &&& final(self).next_index == id.index + 1
                &&& r == Some((ReplicaEvent::UpdateMatchIndex { target: old(self).target, matched: id }))
                &&& final(self).target_state == (if old(self).last_log_index >= id.index
                    && old(self).last_log_index - id.index > lag_threshold {
                    TargetReplState::Lagging
                } else {
                    old(self).target_state
                })
                &&& final(self).target == old(self).target
                &&& final(self).term == old(self).term
                &&& final(self).last_log_index == old(self).last_log_index
                &&& final(self).commit_index == old(self).commit_index
            },
    {
        match last_sent {
            None => None,
            Some(id) => {
                self.matched = id;
                self.next_index = id.index + 1;
                if self.last_log_index >= id.index && self.last_log_index - id.index
                    > lag_threshold {
                    self.target_state = TargetReplState::Lagging;
                }
                Some(ReplicaEvent::UpdateMatchIndex { target: self.target, matched: id })
            },
        }
    }

    /// Handles a failed append answered with `resp_term` and, perhaps, a
    /// conflict hint.
    pub fn handle_append_failure(&mut self, resp_term: u64, conflict: Option<ConflictOpt>) -> (r:
        ConflictStep)
        requires
            old(self).last_log_index < u64::MAX,
        ensures
            final(self).target == old(self).target,
            final(self).term == old(self).term,
            final(self).last_log_index == old(self).last_log_index,
            final(self).commit_index == old(self).commit_index,
            resp_term > old(self).term ==> r == ConflictStep::Revert(
                (ReplicaEvent::RevertToFollower { target: old(self).target, term: resp_term }),
            ) && final(self).target_state == TargetReplState::Shutdown && final(self).next_index
                == old(self).next_index && final(self).matched == old(self).matched,
            resp_term <= old(self).term && (conflict is None || conflict.unwrap().log_id.index
                > old(self).last_log_index) ==> r == ConflictStep::Ignore && *final(self) == *old(
                self),
            resp_term <= old(self).term && conflict is Some && conflict.unwrap().log_id.index
                <= old(self).last_log_index ==> ({
                let c = conflict.unwrap();
                &&& final(self).next_index == c.log_id.index + 1
                &&& final(self).matched == c.log_id
                &&& c.log_id.index == 0 ==> final(self).target_state == TargetReplState::Lagging
                    && r == ConflictStep::Report(
                    (ReplicaEvent::UpdateMatchIndex { target: old(self).target, matched: c.log_id }),
                )
                &&& c.log_id.index != 0 ==> final(self).target_state == old(self).target_state
                    && r == ConflictStep::FetchTerm(c.log_id.index)
            }),
    {
        if resp_term > self.term {
            self.target_state = TargetReplState::Shutdown;
            return ConflictStep::Revert(
                ReplicaEvent::RevertToFollower { target: self.target, term: resp_term },
            );
        }
        match conflict {
            None => ConflictStep::Ignore,
            Some(c) => {
                if c.log_id.index > self.last_log_index {
                    return ConflictStep::Ignore;
                }
                self.next_index = c.log_id.index + 1;
                self.matched = c.log_id;
                if c.log_id.index == 0 {
                    self.target_state = TargetReplState::Lagging;
                    return ConflictStep::Report(
                        ReplicaEvent::UpdateMatchIndex { target: self.target, matched: self.matched },
                    );
                }
                ConflictStep::FetchTerm(c.log_id.index)
            },
        }
    }

    /// Continues a conflict after the leader's entry at the hinted index was
    /// looked up: `term` is its term, or none when it was compacted away. The
    /// stream adopts that term and then streams a snapshot when the peer is
    /// at least `threshold` entries behind, else lags.
    pub fn adopt_conflict_term(&mut self, term: Option<u64>, threshold: u64) -> (r: ReplicaEvent)
        requires
            old(self).matched.index <= old(self).last_log_index,
        ensures
            final(self).matched.index == old(self).matched.index,
            final(self).matched.term == (match term {
                Some(t) => t,
                None => old(self).matched.term,
            }),
            r == (ReplicaEvent::UpdateMatchIndex { target: old(self).target, matched: final(self).matched }),
            final(self).target_state == old(self).after_conflict_lookup(term, threshold),
            final(self).next_index == old(self).next_index,
            final(self).target == old(self).target,
            final(self).term == old(self).term,
            final(self).last_log_index == old(self).last_log_index,
            final(self).commit_index == old(self).commit_index,
    {
        match term {
            Some(t) => {
                self.matched.term = t;
                if self.last_log_index - self.matched.index >= threshold {
                    self.target_state = TargetReplState::Snapshotting;
                } else {
                    self.target_state = TargetReplState::Lagging;
                }
            },
            None => {
                self.target_state = TargetReplState::Snapshotting;
            },
        }
        ReplicaEvent::UpdateMatchIndex { target: self.target, matched: self.matched }
    }

    /// The mode after the lookup of the conflicting entry's term.
    pub open spec fn after_conflict_lookup(&self, term: Option<u64>, threshold: u64) -> TargetReplState {
        if term is None || self.last_log_index - self.matched.index >= threshold {
            TargetReplState::Snapshotting
        } else {
            TargetReplState::Lagging
        }
    }

    /// The step that a lagging stream takes, and the mode it is in after it.
    pub open spec fn lagging_plan(&self, snapshot_threshold: u64, max_payload_entries: u64) -> (LaggingStep, TargetReplState) {
        if self.needs_snapshot_spec(snapshot_threshold) {
            (LaggingStep::ToSnapshotting, TargetReplState::Snapshotting)
        } else if self.next_index > self.commit_index {
            (LaggingStep::ToLineRate, TargetReplState::LineRate)
        } else if self.commit_index - self.next_index <= max_payload_entries {
            (LaggingStep::Fetch { start: self.next_index, stop: (self.commit_index + 1) as u64 }, TargetReplState::LineRate)
        } else {
            (
                LaggingStep::Fetch {
                    start: self.next_index,
                    stop: (self.next_index + max_payload_entries + 1) as u64,
                },
                self.target_state,
            )
        }
    }

    /// The next step of a lagging stream: a snapshot when the peer is too far
    /// behind, line rate when it has every committed entry, else a batch of at
    /// most `max_payload_entries + 1` entries from `next_index`, up to the
    /// commit index. A batch that reaches the commit index moves the stream to
    /// line rate once sent.
    pub fn lagging_step(&mut self, snapshot_threshold: u64, max_payload_entries: u64) -> (r:
        LaggingStep)
        requires
            old(self).commit_index < u64::MAX,
            old(self).next_index + max_payload_entries < u64::MAX,
        ensures
            r == old(self).lagging_plan(snapshot_threshold, max_payload_entries).0,
            final(self).target_state == old(self).lagging_plan(snapshot_threshold, max_payload_entries).1,
            final(self).next_index == old(self).next_index,
            final(self).matched == old(self).matched,
            final(self).target == old(self).target,
            final(self).term == old(self).term,
            final(self).last_log_index == old(self).last_log_index,
            final(self).commit_index == old(self).commit_index,
    {
        if self.needs_snapshot(snapshot_threshold) {
            self.target_state = TargetReplState::Snapshotting;
            return LaggingStep::ToSnapshotting;
        }
        if self.is_up_to_speed() {
            self.target_state = TargetReplState::LineRate;
            return LaggingStep::ToLineRate;
        }
        let distance = self.commit_index - self.next_index;
        if distance <= max_payload_entries {
            self.target_state = TargetReplState::LineRate;
            LaggingStep::Fetch { start: self.next_index, stop: self.commit_index + 1 }
        } else {
            LaggingStep::Fetch { start: self.next_index, stop: self.next_index + max_payload_entries + 1 }
        }
    }

    pub open spec fn needs_snapshot_spec(&self, threshold: u64) -> bool {
        self.commit_index >= self.matched.index && self.commit_index - self.matched.index
            >= threshold
    }

    /// The entries to read from storage before resuming at line rate, when
    /// the first buffered entry is `first_buffered` (none when both buffers
    /// are empty): the range `[next_index, first)`, where `first` is the first
    /// buffered index, or the one after the leader's last entry.
    pub fn frontload_range(&self, first_buffered: Option<u64>) -> (r: Option<(u64, u64)>)
        requires
            self.last_log_index < u64::MAX,
        ensures
            ({
                let first = match first_buffered {
                    Some(i) => i,
                    None => (self.last_log_index + 1) as u64,
                };
                &&& self.next_index == first ==> r is None
                &&& self.next_index != first ==> r == Some((self.next_index, first))
            }),
    {
        let first = match first_buffered {
            Some(i) => i,
            None => self.last_log_index + 1,
        };
        if self.next_index == first {
            None
        } else {
            Some((self.next_index, first))
        }
    }

    /// Takes the entries read from storage ahead of the buffers: a purge
    /// marker among them sends the stream to snapshotting.
    pub fn check_fetched(&mut self, entries: &Vec<Entry>) -> (r: bool)
        ensures
            r == !has_purged_marker(entries@),
            !r ==> final(self).target_state == TargetReplState::Snapshotting,
            r ==> final(self).target_state == old(self).target_state,
            final(self).next_index == old(self).next_index,
            final(self).matched == old(self).matched,
            final(self).target == old(self).target,
            final(self).term == old(self).term,
            final(self).last_log_index == old(self).last_log_index,
            final(self).commit_index == old(self).commit_index,
    {
        if contains_purged_marker(entries) {
            self.target_state = TargetReplState::Snapshotting;
            false
        } else {
            true
        }
    }

    /// Takes an event of the leader. The result says whether the new entry
    /// goes to the replication buffer, which is kept at line rate only.
    pub fn handle_raft_event(&mut self, event: RaftEvent) -> (r: bool)
        ensures
            r == (event is Replicate && old(self).target_state == TargetReplState::LineRate),
            (match event {
                RaftEvent::Replicate { index, commit_index } => final(self).commit_index
                    == commit_index && final(self).last_log_index == index && final(
                    self).target_state == old(self).target_state,
                RaftEvent::UpdateCommitIndex { commit_index } => final(self).commit_index
                    == commit_index && final(self).last_log_index == old(self).last_log_index
                    && final(self).target_state == old(self).target_state,
                RaftEvent::Terminate => final(self).commit_index == old(self).commit_index
                    && final(self).last_log_index == old(self).last_log_index && final(
                    self).target_state == TargetReplState::Shutdown,
            }),
            final(self).next_index == old(self).next_index,
            final(self).matched == old(self).matched,
            final(self).target == old(self).target,
            final(self).term == old(self).term,
    {
        match event {
            RaftEvent::UpdateCommitIndex { commit_index } => {
                self.commit_index = commit_index;
                false
            },
            RaftEvent::Replicate { index, commit_index } => {
                self.commit_index = commit_index;
                self.last_log_index = index;
                self.target_state == TargetReplState::LineRate
            },
            RaftEvent::Terminate => {
                self.target_state = TargetReplState::Shutdown;
                false
            },
        }
    }

    /// Starts streaming a snapshot that ends at `last`: the peer will hold
    /// the log up to it once installed.
    pub fn begin_snapshot_stream(&mut self, last: LogId)
        requires
            last.index < u64::MAX,
        ensures
            final(self).next_index == last.index + 1,
            final(self).matched == last,
            final(self).target_state == old(self).target_state,
            final(self).target == old(self).target,
            final(self).term == old(self).term,
            final(self).last_log_index == old(self).last_log_index,
            final(self).commit_index == old(self).commit_index,
    {
        self.next_index = last.index + 1;
        self.matched = last;
    }

    /// Takes the answer of the peer to a snapshot chunk: a greater term stops
    /// the stream and makes the leader revert; after the last chunk the
    /// stream lags again.
    pub fn handle_snapshot_response(&mut self, resp_term: u64, done: bool) -> (r: Option<ReplicaEvent>)
        ensures
            resp_term > old(self).term ==> r == Some((ReplicaEvent::RevertToFollower { target: old(self).target, term: resp_term }))
                && final(self).target_state == TargetReplState::Shutdown,
            resp_term <= old(self).term && done ==> r is None && final(self).target_state
                == TargetReplState::Lagging,
            resp_term <= old(self).term && !done ==> r is None && final(self).target_state
                == old(self).target_state,
            final(self).next_index == old(self).next_index,
            final(self).matched == old(self).matched,
            final(self).target == old(self).target,
            final(self).term == old(self).term,
            final(self).last_log_index == old(self).last_log_index,
            final(self).commit_index == old(self).commit_index,
    {
        if resp_term > self.term {
            self.target_state = TargetReplState::Shutdown;
            return Some(ReplicaEvent::RevertToFollower { target: self.target, term: resp_term });
        }
        if done {
            self.target_state = TargetReplState::Lagging;
        }
        None
    }

    /// The append request that carries `entries` to the peer: it follows
    /// the matched log id and carries the leader's commit index.
    pub fn build_append_request(&self, leader_id: NodeId, entries: Vec<Entry>) -> (r: AppendEntriesRequest)
        ensures
            r.term == self.term,
            r.leader_id == leader_id,
            r.prev_log_id == self.matched,
            r.entries@ == entries@,
            r.leader_commit == self.commit_index,
    {
        AppendEntriesRequest {
            term: self.term,
            leader_id,
            prev_log_id: self.matched,
            entries,
            leader_commit: self.commit_index,
        }
    }
}

/// The next snapshot chunk to send from `offset` of a snapshot of `total`
/// bytes: its length, at most `max_chunk`, and whether it is the last one.
pub fn next_chunk(offset: u64, total: u64, max_chunk: u64) -> (r: (u64, bool))
    requires
        offset <= total,
        max_chunk > 0,
    ensures
        r.0 == (if total - offset <= max_chunk {
            (total - offset) as u64
        } else {
            max_chunk
        }),
        r.1 == (offset + r.0 == total),
{
    let rest = total - offset;
    if rest <= max_chunk {
        (rest, true)
    } else {
        (max_chunk, false)
    }
}

} // verus!
