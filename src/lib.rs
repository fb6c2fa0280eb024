//! Verified decision logic of a Raft consensus node: log identifiers and
//! entries, membership configurations with joint consensus, quorum and commit
//! computation, vote and append-entries handling, per-peer replication
//! decisions and the snapshot install stream.

mod commit;
mod leader;
mod log;
mod membership;
mod messages;
mod node;
mod nodes;
mod replication;
mod snapshot;
mod types;

pub use commit::calculate_commit_index;
pub use commit::majority_matched;
pub use leader::check_add_non_voter;
pub use leader::initial_leader_payload;
pub use leader::nodes_to_promote;
pub use leader::plan_membership_change;
pub use leader::plan_removals;
pub use leader::ChangeConfigError;
pub use leader::handle_special_log;
pub use leader::ConsensusState;
pub use leader::MembershipPlan;
pub use leader::QuorumTally;
pub use leader::ReadOutcome;
pub use leader::SpecialLog;
pub use leader::VoteOutcome;
pub use log::entries_follow;
pub use log::latest_membership;
pub use log::MemLog;
pub use membership::MembershipConfig;
pub use messages::AppendEntriesRequest;
pub use messages::AppendEntriesResponse;
pub use messages::ClientWriteRequest;
pub use messages::ClientWriteResponse;
pub use messages::ConflictOpt;
pub use messages::Entry;
pub use messages::EntryConfigChange;
pub use messages::EntryNormal;
pub use messages::EntryPayload;
pub use messages::HardState;
pub use messages::InitialState;
pub use messages::InstallSnapshotRequest;
pub use messages::InstallSnapshotResponse;
pub use messages::ReplicationMetrics;
pub use messages::SnapshotMeta;
pub use messages::VoteRequest;
pub use messages::VoteResponse;
pub use node::election_timeout;
pub use node::select_initial_state;
pub use node::InitializeError;
pub use node::SnapshotUpdate;
pub use node::UpdateCurrentLeader;
pub use node::RaftCore;
pub use node::State;
pub use nodes::node_set_from;
pub use replication::contains_purged_marker;
pub use replication::is_ready_to_join;
pub use replication::next_chunk;
pub use replication::ConflictStep;
pub use replication::LaggingStep;
pub use replication::RaftEvent;
pub use replication::ReplicaEvent;
pub use replication::ReplicationCore;
pub use replication::TargetReplState;
pub use snapshot::after_chunk;
pub use snapshot::decide_install;
pub use snapshot::InstallAction;
pub use snapshot::SnapshotMismatch;
pub use snapshot::SnapshotSegmentId;
pub use snapshot::SnapshotState;
pub use types::LogId;
pub use types::NodeId;
