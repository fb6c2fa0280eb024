use vstd::prelude::*;

use crate::membership::MembershipConfig;
use crate::types::LogId;
use crate::types::NodeId;

verus! {

/// A normal log entry: application bytes.
#[derive(Clone, Debug, PartialEq, Eq)]
pub struct EntryNormal {
    pub data: Vec<u8>,
}

/// A log entry holding a membership configuration.
#[derive(Clone, Debug, PartialEq, Eq)]
pub struct EntryConfigChange {
    pub membership: MembershipConfig,
}

/// What a log entry carries.
#[derive(Clone, Debug, PartialEq, Eq)]
pub enum EntryPayload {
    /// An empty payload committed by a new leader.
    Blank,
    /// Application data.
    Normal(EntryNormal),
    /// A membership configuration.
    ConfigChange(EntryConfigChange),
    /// Marks the index before which the log was compacted away.
    PurgedMarker,
}

/// A log entry.
#[derive(Clone, Debug, PartialEq, Eq)]
pub struct Entry {
    pub log_id: LogId,
    pub payload: EntryPayload,
}

impl Entry {
    /// The marker entry that stands for the compacted log up to `log_id`.
    pub fn new_purged_marker(log_id: LogId) -> (r: Entry)
        ensures
            r.log_id == log_id,
            r.payload is PurgedMarker,
    {
        Entry { log_id, payload: EntryPayload::PurgedMarker }
    }
}

/// A request of the leader to replicate entries, or a heartbeat when
/// `entries` is empty.
#[derive(Debug, PartialEq, Eq)]
pub struct AppendEntriesRequest {
    pub term: u64,
    pub leader_id: NodeId,
    /// The log id of the entry just before `entries`.
    pub prev_log_id: LogId,
    pub entries: Vec<Entry>,
    pub leader_commit: u64,
}

/// The hint that lets a leader skip back over a whole term on a conflict.
#[derive(Clone, Copy, Debug, PartialEq, Eq, Structural)]
pub struct ConflictOpt {
    /// The most recent log id that does not conflict with the request.
    pub log_id: LogId,
}

/// The answer to an `AppendEntriesRequest`.
#[derive(Debug, PartialEq, Eq)]
pub struct AppendEntriesResponse {
    pub term: u64,
    pub success: bool,
    /// Present only when `success` is false.
    pub conflict_opt: Option<ConflictOpt>,
}

/// A request of a candidate for a vote.
#[derive(Clone, Copy, Debug, PartialEq, Eq, Structural)]
pub struct VoteRequest {
    pub term: u64,
    pub candidate_id: NodeId,
    pub last_log_index: u64,
    pub last_log_term: u64,
}

impl VoteRequest {
    pub fn new(term: u64, candidate_id: u64, last_log_index: u64, last_log_term: u64) -> (r: Self)
        ensures
            r.term == term,
            r.candidate_id == candidate_id,
            r.last_log_index == last_log_index,
            r.last_log_term == last_log_term,
    {
        VoteRequest { term, candidate_id, last_log_index, last_log_term }
    }
}

/// The answer to a `VoteRequest`.
#[derive(Clone, Copy, Debug, PartialEq, Eq, Structural)]
pub struct VoteResponse {
    pub term: u64,
    pub vote_granted: bool,
}

/// What a snapshot covers.
#[derive(Clone, Debug, PartialEq, Eq)]
pub struct SnapshotMeta {
    /// The last log id that the snapshot includes.
    pub last_log_id: LogId,
    /// The latest membership configuration that the snapshot covers.
    pub membership: MembershipConfig,
    /// Names the snapshot while it is transferred.
    pub snapshot_id: String,
}

/// A chunk of a snapshot that the leader streams to a follower.
#[derive(Clone, Debug, PartialEq, Eq)]
pub struct InstallSnapshotRequest {
    pub term: u64,
    pub leader_id: NodeId,
    pub meta: SnapshotMeta,
    /// The byte offset of `data` in the snapshot.
    pub offset: u64,
    pub data: Vec<u8>,
    /// Whether this is the last chunk.
    pub done: bool,
}

/// The answer to an `InstallSnapshotRequest`.
#[derive(Clone, Copy, Debug, PartialEq, Eq, Structural)]
pub struct InstallSnapshotResponse {
    pub term: u64,
}

/// A client request to append a payload to the log.
#[derive(Debug, PartialEq, Eq)]
pub struct ClientWriteRequest {
    pub entry: EntryPayload,
}

impl ClientWriteRequest {
    /// A request carrying application data.
    pub fn new(entry: Vec<u8>) -> (r: Self)
        ensures
            r.entry == EntryPayload::Normal(EntryNormal { data: entry }),
    {
        Self::new_base(EntryPayload::Normal(EntryNormal { data: entry }))
    }

    pub fn new_base(entry: EntryPayload) -> (r: Self)
        ensures
            r.entry == entry,
    {
        Self { entry }
    }

    /// A request carrying a membership configuration.
    pub fn new_config(membership: MembershipConfig) -> (r: Self)
        ensures
            r.entry == EntryPayload::ConfigChange(EntryConfigChange { membership }),
    {
        Self::new_base(EntryPayload::ConfigChange(EntryConfigChange { membership }))
    }

    /// The blank request that a new leader commits.
    pub fn new_blank_payload() -> (r: Self)
        ensures
            r.entry is Blank,
    {
        Self::new_base(EntryPayload::Blank)
    }
}

/// The answer to a client write: the index of its entry and what the state
/// machine answered.
#[derive(Clone, Debug, PartialEq, Eq)]
pub struct ClientWriteResponse {
    pub index: u64,
    pub data: Vec<u8>,
}

/// The durable part of a node's election state.
#[derive(Clone, Copy, Debug, Default, PartialEq, Eq, Structural)]
pub struct HardState {
    pub current_term: u64,
    pub voted_for: Option<NodeId>,
}

/// What a node reads from its store when it starts.
#[derive(Clone, Debug, PartialEq, Eq)]
pub struct InitialState {
    pub last_log_id: LogId,
    pub last_applied_log: LogId,
    pub hard_state: HardState,
    pub membership: MembershipConfig,
}

impl InitialState {
    /// The state of a pristine node with the given id.
    pub fn new_initial(id: NodeId) -> (r: Self)
        ensures
            r.last_log_id == LogId::zero_spec(),
            r.last_applied_log == LogId::zero_spec(),
            r.hard_state.current_term == 0,
            r.hard_state.voted_for is None,
            r.membership@.members == seq![id],
            r.membership@.after is None,
            r.membership.wf(),
    {
        Self {
            last_log_id: LogId::zero(),
            last_applied_log: LogId::zero(),
            hard_state: HardState { current_term: 0, voted_for: None },
            membership: MembershipConfig::new_initial(id),
        }
    }
}

/// What a leader reports of the replication to one peer.
#[derive(Clone, Copy, Debug, PartialEq, Eq, Structural)]
pub struct ReplicationMetrics {
    pub matched: LogId,
}

} // verus!
