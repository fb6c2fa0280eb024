use async_raft::AppendEntriesResponse;
use async_raft::RaftEvent;
use async_raft::ReadOutcome;
use async_raft::SnapshotUpdate;
use async_raft::SpecialLog;
use async_raft::UpdateCurrentLeader;
use async_raft::entries_follow;
use async_raft::handle_special_log;
use async_raft::after_chunk;
use async_raft::check_add_non_voter;
use async_raft::contains_purged_marker;
use async_raft::decide_install;
use async_raft::election_timeout;
use async_raft::is_ready_to_join;
use async_raft::latest_membership;
use async_raft::majority_matched;
use async_raft::next_chunk;
use async_raft::node_set_from;
use async_raft::plan_membership_change;
use async_raft::plan_removals;
use async_raft::select_initial_state;
use async_raft::AppendEntriesRequest;
use async_raft::ChangeConfigError;
use async_raft::ClientWriteRequest;
use async_raft::ConflictOpt;
use async_raft::ConflictStep;
use async_raft::ConsensusState;
use async_raft::Entry;
use async_raft::EntryConfigChange;
use async_raft::EntryNormal;
use async_raft::EntryPayload;
use async_raft::HardState;
use async_raft::InitialState;
use async_raft::InitializeError;
use async_raft::InstallAction;
use async_raft::LaggingStep;
use async_raft::LogId;
use async_raft::MemLog;
use async_raft::MembershipConfig;
use async_raft::QuorumTally;
use async_raft::RaftCore;
use async_raft::ReplicaEvent;
use async_raft::ReplicationCore;
use async_raft::SnapshotMismatch;
use async_raft::SnapshotSegmentId;
use async_raft::SnapshotState;
use async_raft::State;
use async_raft::TargetReplState;
use async_raft::VoteOutcome;
use async_raft::VoteRequest;
use async_raft::VoteResponse;

fn lid(term: u64, index: u64) -> LogId {
    LogId { term, index }
}

fn cfg(members: Vec<u64>, after: Option<Vec<u64>>) -> MembershipConfig {
    MembershipConfig { members, members_after_consensus: after }
}

fn follower(id: u64, term: u64, last: LogId) -> RaftCore {
    let mut core = RaftCore::new(id, InitialState::new_initial(id), lid(0, 0));
    core.membership = cfg(vec![0, 1, 2], None);
    core.target_state = State::Follower;
    core.current_term = term;
    core.last_log_id = last;
    core
}

#[test]
fn state_predicates() {
    assert!(State::NonVoter.is_non_voter());
    assert!(State::Follower.is_follower());
    assert!(State::Candidate.is_candidate());
    assert!(State::Leader.is_leader());
    assert!(!State::Shutdown.is_leader());
    assert!(!State::Leader.is_follower());
}

#[test]
fn initial_role_selection() {
    assert_eq!(select_initial_state(true, true, true), State::Leader);
    assert_eq!(select_initial_state(true, false, true), State::Follower);
    assert_eq!(select_initial_state(false, true, true), State::NonVoter);
    assert_eq!(select_initial_state(true, false, false), State::NonVoter);
    assert_eq!(select_initial_state(false, false, false), State::NonVoter);
    let init = InitialState {
        last_log_id: lid(2, 7),
        last_applied_log: lid(2, 5),
        hard_state: HardState { current_term: 2, voted_for: Some(1) },
        membership: cfg(vec![0, 1, 2], None),
    };
    let core = RaftCore::new(1, init, lid(1, 3));
    assert_eq!(core.target_state, State::Follower);
    assert_eq!(core.commit_index, 0);
    assert_eq!(core.current_term, 2);
    assert_eq!(core.hard_state(), HardState { current_term: 2, voted_for: Some(1) });
}

#[test]
fn membership_queries() {
    let joint = cfg(vec![0, 1, 2], Some(vec![2, 3]));
    assert!(joint.is_in_joint_consensus());
    assert!(joint.contains(&3));
    assert!(joint.contains(&0));
    assert!(!joint.contains(&4));
    assert_eq!(joint.all_nodes(), vec![0, 1, 2, 3]);
    let fin = joint.to_final_config();
    assert_eq!(fin, cfg(vec![2, 3], None));
    assert_eq!(cfg(vec![1], None).to_final_config(), cfg(vec![1], None));
    assert_eq!(MembershipConfig::new_initial(7), cfg(vec![7], None));
    assert!(!MembershipConfig::new_initial(7).is_in_joint_consensus());
    assert_eq!(node_set_from(&vec![5, 1, 5, 3, 1]), vec![1, 3, 5]);
    assert_eq!(node_set_from(&vec![]), Vec::<u64>::new());
}

#[test]
fn quorum_needs_both_groups() {
    let joint = cfg(vec![0, 1, 2], Some(vec![3, 4, 5]));
    assert!(!joint.is_quorum(&vec![0, 1]));
    assert!(!joint.is_quorum(&vec![3, 4, 5]));
    assert!(joint.is_quorum(&vec![0, 1, 3, 4]));
    assert!(cfg(vec![0, 1, 2, 3], None).is_quorum(&vec![1, 2, 3]));
    assert!(!cfg(vec![0, 1, 2, 3], None).is_quorum(&vec![1, 2]));
}

#[test]
fn constructors() {
    let e = Entry::new_purged_marker(lid(4, 9));
    assert_eq!(e.log_id, lid(4, 9));
    assert_eq!(e.payload, EntryPayload::PurgedMarker);
    let v = VoteRequest::new(3, 1, 10, 2);
    assert_eq!(v, VoteRequest { term: 3, candidate_id: 1, last_log_index: 10, last_log_term: 2 });
    assert_eq!(ClientWriteRequest::new(vec![1, 2]).entry, EntryPayload::Normal(EntryNormal { data: vec![1, 2] }));
    assert_eq!(ClientWriteRequest::new_blank_payload().entry, EntryPayload::Blank);
    assert_eq!(
        ClientWriteRequest::new_config(cfg(vec![1], None)).entry,
        EntryPayload::ConfigChange(EntryConfigChange { membership: cfg(vec![1], None) })
    );
    let init = InitialState::new_initial(3);
    assert_eq!(init.last_log_id, lid(0, 0));
    assert_eq!(init.hard_state, HardState { current_term: 0, voted_for: None });
    assert_eq!(init.membership, cfg(vec![3], None));
}

#[test]
fn initialize_refused_when_not_pristine() {
    let mut core = follower(1, 2, lid(2, 4));
    assert_eq!(core.handle_init_with_config(&vec![1]), Err(InitializeError::NotAllowed));
    assert_eq!(core.current_term, 2);
    let mut fresh = RaftCore::new(1, InitialState::new_initial(1), lid(0, 0));
    fresh.current_term = 1;
    assert_eq!(fresh.handle_init_with_config(&vec![1]), Err(InitializeError::NotAllowed));
}

#[test]
fn initialize_adds_self() {
    let mut core = RaftCore::new(4, InitialState::new_initial(4), lid(0, 0));
    assert_eq!(core.handle_init_with_config(&vec![2, 1]), Ok(()));
    assert_eq!(core.membership, cfg(vec![1, 2, 4], None));
    assert_eq!(core.target_state, State::Candidate);
    assert_eq!(core.current_term, 0);
}

#[test]
fn vote_rules() {
    let mut core = follower(1, 3, lid(3, 10));
    // A stale term is refused.
    let r = core.handle_vote_request(&VoteRequest::new(2, 0, 20, 2));
    assert_eq!(r, VoteResponse { term: 3, vote_granted: false });
    // A log behind ours is refused, but the term is adopted.
    let r = core.handle_vote_request(&VoteRequest::new(4, 0, 9, 3));
    assert_eq!(r, VoteResponse { term: 4, vote_granted: false });
    assert_eq!(core.voted_for, None);
    // An up-to-date candidate gets the vote, once per term.
    let r = core.handle_vote_request(&VoteRequest::new(4, 2, 10, 3));
    assert_eq!(r, VoteResponse { term: 4, vote_granted: true });
    assert_eq!(core.voted_for, Some(2));
    let r = core.handle_vote_request(&VoteRequest::new(4, 0, 50, 4));
    assert!(!r.vote_granted);
    let r = core.handle_vote_request(&VoteRequest::new(4, 2, 10, 3));
    assert!(r.vote_granted);
}

#[test]
fn higher_term_steps_leader_down() {
    let mut core = follower(0, 5, lid(5, 3));
    core.target_state = State::Leader;
    let r = core.handle_vote_request(&VoteRequest::new(6, 1, 3, 5));
    assert!(r.vote_granted);
    assert_eq!(core.target_state, State::Follower);
    assert_eq!(core.current_term, 6);
}

#[test]
fn candidate_tally() {
    let membership = cfg(vec![0, 1, 2, 3, 4], None);
    let mut t = QuorumTally::new(0);
    let yes = VoteResponse { term: 2, vote_granted: true };
    let no = VoteResponse { term: 2, vote_granted: false };
    assert_eq!(t.handle_vote_response(1, &yes, 2, &membership), VoteOutcome::Pending);
    assert_eq!(t.handle_vote_response(2, &no, 2, &membership), VoteOutcome::Pending);
    assert_eq!(t.handle_vote_response(1, &yes, 2, &membership), VoteOutcome::Pending);
    assert_eq!(t.handle_vote_response(3, &yes, 2, &membership), VoteOutcome::BecomeLeader);
    let higher = VoteResponse { term: 9, vote_granted: false };
    assert_eq!(t.handle_vote_response(4, &higher, 2, &membership), VoteOutcome::RevertToFollower { term: 9 });
}

#[test]
fn append_entries_stale_term() {
    let mut core = follower(1, 5, lid(0, 0));
    let mut log = MemLog::new();
    let r = core.handle_append_entries(&mut log, AppendEntriesRequest {
        term: 4,
        leader_id: 0,
        prev_log_id: lid(0, 0),
        entries: vec![Entry { log_id: lid(4, 1), payload: EntryPayload::Blank }],
        leader_commit: 1,
    });
    assert_eq!(r.term, 5);
    assert!(!r.success);
    assert_eq!(r.conflict_opt, None);
    assert!(log.entries.is_empty());
    assert_eq!(core.current_leader, None);
}

#[test]
fn append_entries_missing_prev_gives_zero_hint() {
    let mut core = follower(1, 1, lid(0, 0));
    let mut log = MemLog::new();
    let r = core.handle_append_entries(&mut log, AppendEntriesRequest {
        term: 2,
        leader_id: 0,
        prev_log_id: lid(2, 5),
        entries: vec![],
        leader_commit: 0,
    });
    assert!(!r.success);
    assert_eq!(r.conflict_opt, Some(ConflictOpt { log_id: lid(0, 0) }));
    assert_eq!(core.current_term, 2);
    assert_eq!(core.current_leader, Some(0));
}

#[test]
fn append_entries_keeps_matching_tail_and_caps_commit() {
    let mut core = follower(1, 1, lid(1, 3));
    let mut log = MemLog::new();
    for i in 1..=3 {
        log.entries.push(Entry { log_id: lid(1, i), payload: EntryPayload::Blank });
    }
    // Entries already held change nothing; the commit stops at the last entry.
    let r = core.handle_append_entries(&mut log, AppendEntriesRequest {
        term: 1,
        leader_id: 0,
        prev_log_id: lid(1, 1),
        entries: vec![Entry { log_id: lid(1, 2), payload: EntryPayload::Blank }],
        leader_commit: 9,
    });
    assert!(r.success);
    assert_eq!(log.entries.len(), 3);
    assert_eq!(core.commit_index, 3);
    // The commit index never moves back.
    core.handle_append_entries(&mut log, AppendEntriesRequest {
        term: 1,
        leader_id: 0,
        prev_log_id: lid(1, 3),
        entries: vec![],
        leader_commit: 1,
    });
    assert_eq!(core.commit_index, 3);
}

#[test]
fn commit_needs_current_term() {
    let membership = cfg(vec![0, 1, 2], None);
    // A majority holds index 4, but of an earlier term.
    let matched = vec![(1, lid(1, 4)), (2, lid(0, 0))];
    assert_eq!(async_raft::calculate_commit_index(&membership, 0, lid(1, 4), 2, 0, &matched), 0);
    let matched = vec![(1, lid(2, 6)), (2, lid(1, 4))];
    assert_eq!(async_raft::calculate_commit_index(&membership, 0, lid(2, 7), 2, 0, &matched), 6);
    // Never moves back.
    assert_eq!(async_raft::calculate_commit_index(&membership, 0, lid(2, 7), 2, 9, &matched), 9);
}

#[test]
fn majority_matched_values() {
    assert_eq!(majority_matched(&vec![lid(1, 5)]), lid(1, 5));
    assert_eq!(majority_matched(&vec![lid(1, 5), lid(1, 9), lid(1, 2)]), lid(1, 5));
    assert_eq!(majority_matched(&vec![lid(1, 5), lid(1, 9), lid(1, 2), lid(1, 7)]), lid(1, 5));
    assert_eq!(majority_matched(&vec![lid(1, 3), lid(1, 3), lid(1, 8), lid(1, 8), lid(1, 8)]), lid(1, 8));
}

#[test]
fn election_timeout_window() {
    let mut seen = vec![false; 151];
    for d in 0..1000u64 {
        let t = election_timeout(150, 300, d);
        assert!((150..=300).contains(&t));
        seen[(t - 150) as usize] = true;
    }
    assert!(seen.iter().all(|s| *s));
    assert_eq!(election_timeout(150, 300, 0), 150);
    assert_eq!(election_timeout(150, 300, 150), 300);
    assert_eq!(election_timeout(150, 300, 151), 150);
    assert_eq!(election_timeout(5, 5, 77), 5);
    assert_eq!(election_timeout(0, u64::MAX, 77), 77);
}

#[test]
fn conflict_zero_restarts_from_one() {
    let mut s = ReplicationCore::new(2, 4, 30, 20);
    let step = s.handle_append_failure(4, Some(ConflictOpt { log_id: lid(0, 0) }));
    assert_eq!(step, ConflictStep::Report(ReplicaEvent::UpdateMatchIndex { target: 2, matched: lid(0, 0) }));
    assert_eq!(s.next_index, 1);
    assert_eq!(s.target_state, TargetReplState::Lagging);
}

#[test]
fn conflict_other_cases() {
    let mut s = ReplicationCore::new(2, 4, 30, 20);
    let step = s.handle_append_failure(7, None);
    assert_eq!(step, ConflictStep::Revert(ReplicaEvent::RevertToFollower { target: 2, term: 7 }));
    assert_eq!(s.target_state, TargetReplState::Shutdown);
    let mut s = ReplicationCore::new(2, 4, 30, 20);
    assert_eq!(s.handle_append_failure(4, Some(ConflictOpt { log_id: lid(4, 31) })), ConflictStep::Ignore);
    assert_eq!(s.handle_append_failure(4, None), ConflictStep::Ignore);
    assert_eq!(s.next_index, 31);
    assert_eq!(s.handle_append_failure(3, Some(ConflictOpt { log_id: lid(2, 2) })), ConflictStep::FetchTerm(2));
    let ev = s.adopt_conflict_term(None, 1000);
    assert_eq!(ev, ReplicaEvent::UpdateMatchIndex { target: 2, matched: lid(2, 2) });
    assert_eq!(s.target_state, TargetReplState::Snapshotting);
    let mut s = ReplicationCore::new(2, 4, 30, 20);
    s.handle_append_failure(4, Some(ConflictOpt { log_id: lid(2, 2) }));
    s.adopt_conflict_term(Some(3), 10);
    assert_eq!(s.matched, lid(3, 2));
    assert_eq!(s.target_state, TargetReplState::Snapshotting);
}

#[test]
fn line_rate_success_and_lag() {
    let mut s = ReplicationCore::new(1, 2, 100, 50);
    assert_eq!(s.handle_append_success(None, 10), None);
    let ev = s.handle_append_success(Some(lid(2, 95)), 10);
    assert_eq!(ev, Some(ReplicaEvent::UpdateMatchIndex { target: 1, matched: lid(2, 95) }));
    assert_eq!(s.next_index, 96);
    assert_eq!(s.target_state, TargetReplState::LineRate);
    s.handle_append_success(Some(lid(2, 80)), 10);
    assert_eq!(s.target_state, TargetReplState::Lagging);
}

#[test]
fn lagging_steps() {
    let mut s = ReplicationCore::new(1, 2, 100, 100);
    s.matched = lid(2, 10);
    s.next_index = 11;
    s.target_state = TargetReplState::Lagging;
    assert_eq!(s.lagging_step(1000, 20), LaggingStep::Fetch { start: 11, stop: 32 });
    assert_eq!(s.target_state, TargetReplState::Lagging);
    s.next_index = 90;
    assert_eq!(s.lagging_step(1000, 20), LaggingStep::Fetch { start: 90, stop: 101 });
    assert_eq!(s.target_state, TargetReplState::LineRate);
    s.next_index = 101;
    assert_eq!(s.lagging_step(1000, 20), LaggingStep::ToLineRate);
    assert!(s.is_up_to_speed());
    assert!(s.needs_snapshot(90));
    assert_eq!(s.lagging_step(90, 20), LaggingStep::ToSnapshotting);
    assert_eq!(s.target_state, TargetReplState::Snapshotting);
}

#[test]
fn frontload_ranges() {
    let mut s = ReplicationCore::new(1, 2, 20, 10);
    assert_eq!(s.frontload_range(None), None);
    s.next_index = 15;
    assert_eq!(s.frontload_range(None), Some((15, 21)));
    assert_eq!(s.frontload_range(Some(18)), Some((15, 18)));
    assert_eq!(s.frontload_range(Some(15)), None);
}

#[test]
fn purged_marker_detection() {
    let plain = vec![Entry { log_id: lid(1, 1), payload: EntryPayload::Blank }];
    assert!(!contains_purged_marker(&plain));
    assert!(contains_purged_marker(&vec![plain[0].clone(), Entry::new_purged_marker(lid(1, 2))]));
    assert!(!contains_purged_marker(&vec![]));
}

#[test]
fn ready_to_join_slack() {
    assert!(is_ready_to_join(95, 100, 5));
    assert!(!is_ready_to_join(94, 100, 5));
    assert!(is_ready_to_join(100, 100, 0));
    assert!(is_ready_to_join(101, 100, 0));
}

#[test]
fn snapshot_chunks() {
    assert_eq!(next_chunk(0, 10, 4), (4, false));
    assert_eq!(next_chunk(8, 10, 4), (2, true));
    assert_eq!(next_chunk(0, 0, 4), (0, true));
    assert_eq!(next_chunk(6, 10, 4), (4, true));
}

#[test]
fn snapshot_new_id_at_zero_discards_stream() {
    let streaming = Some(SnapshotState::Streaming { id: String::from("a"), offset: 10 });
    assert_eq!(decide_install(&streaming, &String::from("b"), 0), Ok(InstallAction::Begin));
    assert_eq!(decide_install(&streaming, &String::from("a"), 10), Ok(InstallAction::Continue { offset: 10 }));
    assert_eq!(
        decide_install(&streaming, &String::from("b"), 5),
        Err(SnapshotMismatch {
            expect: SnapshotSegmentId { id: String::from("a"), offset: 10 },
            got: SnapshotSegmentId { id: String::from("b"), offset: 5 },
        })
    );
    assert_eq!(
        decide_install(&None, &String::from("c"), 3),
        Err(SnapshotMismatch {
            expect: SnapshotSegmentId { id: String::from("c"), offset: 0 },
            got: SnapshotSegmentId { id: String::from("c"), offset: 3 },
        })
    );
    assert_eq!(decide_install(&Some(SnapshotState::Snapshotting), &String::from("c"), 0), Ok(InstallAction::Begin));
    assert_eq!(
        after_chunk(&String::from("a"), 10, 5, false),
        Some(SnapshotState::Streaming { id: String::from("a"), offset: 15 })
    );
    assert_eq!(after_chunk(&String::from("a"), 10, 5, true), None);
}

#[test]
fn change_membership_errors() {
    let current = cfg(vec![0, 1, 2], None);
    assert_eq!(
        plan_membership_change(&ConsensusState::Uniform, &current, &vec![], &vec![], 0),
        Err(ChangeConfigError::InoperableConfig)
    );
    assert_eq!(
        plan_membership_change(&ConsensusState::Joint { is_committed: false }, &current, &vec![1], &vec![], 0),
        Err(ChangeConfigError::ConfigChangeInProgress)
    );
    let syncing = ConsensusState::NonVoterSync { awaiting: vec![3], members: vec![0, 3] };
    assert_eq!(
        plan_membership_change(&syncing, &current, &vec![1], &vec![], 0),
        Err(ChangeConfigError::ConfigChangeInProgress)
    );
    assert!(!ConsensusState::Joint { is_committed: false }.is_joint_consensus_safe_to_finalize());
    assert!(!ConsensusState::Uniform.is_joint_consensus_safe_to_finalize());
}

#[test]
fn change_membership_partial_sync() {
    let current = cfg(vec![0, 1, 2], None);
    let nv = vec![(3, true), (4, false)];
    let plan = plan_membership_change(&ConsensusState::Uniform, &current, &vec![0, 3, 4, 5], &nv, 0).unwrap();
    assert_eq!(plan, async_raft::MembershipPlan::AwaitSync { awaiting: vec![4, 5], spawn: vec![5] });
    let plan = plan_membership_change(&ConsensusState::Uniform, &current, &vec![0, 1], &vec![], 0).unwrap();
    assert_eq!(
        plan,
        async_raft::MembershipPlan::EnterJoint {
            joint: cfg(vec![0, 1, 2], Some(vec![0, 1])),
            final_config: cfg(vec![0, 1], None),
            stepping_down: false,
        }
    );
}

#[test]
fn add_non_voter_checks() {
    let membership = cfg(vec![0, 1], Some(vec![1, 2]));
    assert_eq!(check_add_non_voter(&membership, &vec![], 1), Err(ChangeConfigError::Noop));
    assert_eq!(check_add_non_voter(&membership, &vec![], 2), Err(ChangeConfigError::Noop));
    assert_eq!(check_add_non_voter(&membership, &vec![(5, false)], 5), Err(ChangeConfigError::Noop));
    assert_eq!(check_add_non_voter(&membership, &vec![(5, false)], 6), Ok(()));
}

#[test]
fn removal_plan() {
    let membership = cfg(vec![0, 1], None);
    let nodes = vec![(1, 10), (2, 12), (3, 4), (4, 11)];
    let (now, later) = plan_removals(&nodes, &membership, 11);
    assert_eq!(now, vec![2, 4]);
    assert_eq!(later, vec![3]);
}

#[test]
fn membership_update_moves_role() {
    let mut core = follower(3, 1, lid(0, 0));
    core.membership = cfg(vec![0, 1], None);
    core.target_state = State::NonVoter;
    core.update_membership(cfg(vec![0, 1, 3], None));
    assert_eq!(core.target_state, State::Follower);
    core.update_membership(cfg(vec![0, 1], None));
    assert_eq!(core.target_state, State::NonVoter);
    core.set_target_state(State::Follower);
    assert_eq!(core.target_state, State::NonVoter);
    core.set_target_state(State::Shutdown);
    assert_eq!(core.target_state, State::Shutdown);
}

#[test]
fn terms_only_move_forward() {
    let mut core = follower(1, 4, lid(0, 0));
    core.update_current_term(3, Some(0));
    assert_eq!(core.current_term, 4);
    core.update_current_term(6, Some(2));
    assert_eq!((core.current_term, core.voted_for), (6, Some(2)));
    assert!(!core.observe_leader(5, 0));
    assert!(core.observe_leader(7, 0));
    assert_eq!((core.current_term, core.voted_for, core.current_leader), (7, None, Some(0)));
}

#[test]
fn compaction_trigger() {
    let mut core = follower(1, 1, lid(1, 20));
    core.commit_index = 20;
    assert!(!core.should_compact(5, false, false));
    assert!(core.record_applied(lid(1, 10)));
    assert!(core.should_compact(10, false, false));
    assert!(!core.should_compact(11, false, false));
    assert!(core.should_compact(11, true, false));
    assert!(!core.should_compact(1, true, true));
    core.snapshot_last_log_id = lid(1, 12);
    assert!(!core.should_compact(0, true, false));
}

#[test]
fn read_confirmation() {
    let membership = cfg(vec![0, 1, 2], Some(vec![0, 3, 4]));
    let ok = AppendEntriesResponse { term: 5, success: true, conflict_opt: None };
    let fail = AppendEntriesResponse { term: 5, success: false, conflict_opt: None };
    let mut t = QuorumTally::new(0);
    assert_eq!(t.handle_read_response(1, &ok, 5, &membership), ReadOutcome::Pending);
    assert_eq!(t.handle_read_response(3, &fail, 5, &membership), ReadOutcome::Pending);
    assert_eq!(t.handle_read_response(4, &ok, 5, &membership), ReadOutcome::Confirmed);
    let higher = AppendEntriesResponse { term: 6, success: false, conflict_opt: None };
    assert_eq!(t.handle_read_response(2, &higher, 5, &membership), ReadOutcome::RevertToFollower { term: 6 });
}

#[test]
fn special_log_kinds() {
    let joint = EntryPayload::ConfigChange(EntryConfigChange { membership: cfg(vec![0], Some(vec![1])) });
    let uniform = EntryPayload::ConfigChange(EntryConfigChange { membership: cfg(vec![1], None) });
    assert_eq!(handle_special_log(&joint), SpecialLog::JointCommitted);
    assert_eq!(handle_special_log(&uniform), SpecialLog::UniformCommitted);
    assert_eq!(handle_special_log(&EntryPayload::Blank), SpecialLog::Plain);
}

#[test]
fn config_commits_on_leader() {
    let mut core = follower(0, 2, lid(2, 5));
    core.target_state = State::Leader;
    core.membership = cfg(vec![0, 1, 2], Some(vec![0, 3]));
    let mut state = ConsensusState::Uniform;
    assert!(!core.handle_joint_consensus_committed(&mut state));
    assert!(core.membership.is_in_joint_consensus());
    let mut state = ConsensusState::Joint { is_committed: false };
    assert!(core.handle_joint_consensus_committed(&mut state));
    assert_eq!(state, ConsensusState::Uniform);
    assert_eq!(core.membership, cfg(vec![0, 3], None));
    let (now, later) = core.handle_uniform_consensus_committed(false, &vec![(1, 7), (2, 5), (3, 7)], 7);
    assert_eq!((now, later), (vec![1], vec![2]));
    assert_eq!(core.target_state, State::Leader);
    let (now, later) = core.handle_uniform_consensus_committed(true, &vec![(1, 7)], 7);
    assert!(now.is_empty() && later.is_empty());
    assert_eq!(core.target_state, State::NonVoter);
    assert_eq!(core.current_leader, None);
}

#[test]
fn leader_and_snapshot_state_updates() {
    let mut core = follower(2, 1, lid(0, 0));
    core.update_current_leader(UpdateCurrentLeader::ThisNode);
    assert_eq!(core.current_leader, Some(2));
    core.update_current_leader(UpdateCurrentLeader::OtherNode(7));
    assert_eq!(core.current_leader, Some(7));
    core.update_current_leader(UpdateCurrentLeader::Unknown);
    assert_eq!(core.current_leader, None);
    let mut state = Some(SnapshotState::Snapshotting);
    core.update_snapshot_state(&mut state, SnapshotUpdate::SnapshotComplete(lid(1, 40)));
    assert_eq!(core.snapshot_last_log_id, lid(1, 40));
    assert_eq!(state, None);
    let streaming = Some(SnapshotState::Streaming { id: String::from("s"), offset: 3 });
    let mut state = streaming.clone();
    core.update_snapshot_state(&mut state, SnapshotUpdate::SnapshotFailed);
    assert_eq!(state, streaming);
    assert_eq!(core.snapshot_last_log_id, lid(1, 40));
}

#[test]
fn apply_catch_up() {
    let mut core = follower(1, 1, lid(1, 10));
    core.commit_index = 10;
    assert_eq!(core.apply_catch_up_range(1), None);
    assert_eq!(core.apply_catch_up_range(5), Some((1, 4)));
    assert!(core.record_applied(lid(1, 4)));
    assert_eq!(core.apply_catch_up_range(5), None);
    assert_eq!(core.next_apply_range(), Some((5, 10)));
}

#[test]
fn stream_events() {
    let mut s = ReplicationCore::new(1, 2, 10, 5);
    assert!(s.handle_raft_event(RaftEvent::Replicate { index: 11, commit_index: 6 }));
    assert_eq!((s.last_log_index, s.commit_index), (11, 6));
    assert!(!s.handle_raft_event(RaftEvent::UpdateCommitIndex { commit_index: 9 }));
    assert_eq!(s.commit_index, 9);
    s.target_state = TargetReplState::Lagging;
    assert!(!s.handle_raft_event(RaftEvent::Replicate { index: 12, commit_index: 9 }));
    assert_eq!(s.last_log_index, 12);
    assert!(!s.handle_raft_event(RaftEvent::Terminate));
    assert_eq!(s.target_state, TargetReplState::Shutdown);
}

#[test]
fn snapshot_stream_responses() {
    let mut s = ReplicationCore::new(1, 2, 200, 150);
    s.target_state = TargetReplState::Snapshotting;
    s.begin_snapshot_stream(lid(2, 100));
    assert_eq!((s.next_index, s.matched), (101, lid(2, 100)));
    assert_eq!(s.handle_snapshot_response(2, false), None);
    assert_eq!(s.target_state, TargetReplState::Snapshotting);
    assert_eq!(s.handle_snapshot_response(2, true), None);
    assert_eq!(s.target_state, TargetReplState::Lagging);
    assert_eq!(
        s.handle_snapshot_response(3, false),
        Some(ReplicaEvent::RevertToFollower { target: 1, term: 3 })
    );
    assert_eq!(s.target_state, TargetReplState::Shutdown);
}

#[test]
fn append_request_building() {
    let mut s = ReplicationCore::new(1, 2, 10, 8);
    s.matched = lid(2, 7);
    let entries = vec![
        Entry { log_id: lid(2, 8), payload: EntryPayload::Blank },
        Entry { log_id: lid(2, 9), payload: EntryPayload::Blank },
    ];
    assert!(entries_follow(s.matched, &entries));
    assert!(!entries_follow(lid(2, 6), &entries));
    assert!(entries_follow(lid(0, u64::MAX), &vec![]));
    assert!(!entries_follow(lid(0, u64::MAX), &entries[..1].to_vec()));
    let req = s.build_append_request(0, entries.clone());
    assert_eq!(req, AppendEntriesRequest { term: 2, leader_id: 0, prev_log_id: lid(2, 7), entries, leader_commit: 8 });
}

#[test]
fn latest_membership_of_entries() {
    let first = cfg(vec![0], None);
    let second = cfg(vec![0], Some(vec![0, 1]));
    let entries = vec![
        Entry { log_id: lid(1, 1), payload: EntryPayload::ConfigChange(EntryConfigChange { membership: first }) },
        Entry { log_id: lid(1, 2), payload: EntryPayload::ConfigChange(EntryConfigChange { membership: second.clone() }) },
        Entry { log_id: lid(1, 3), payload: EntryPayload::Blank },
    ];
    assert_eq!(latest_membership(&entries), Some(second));
    assert_eq!(latest_membership(&entries[2..].to_vec()), None);
    assert_eq!(latest_membership(&vec![]), None);
}
