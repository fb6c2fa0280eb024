use vstd::prelude::*;

use crate::log::conflict_hint;
use crate::log::follows;
use crate::log::last_id;
use crate::log::merged;
use crate::log::term_at;
use crate::log::MemLog;
use crate::membership::MembershipConfig;
use crate::messages::AppendEntriesRequest;
use crate::messages::AppendEntriesResponse;
use crate::messages::ConflictOpt;
use crate::messages::Entry;
use crate::messages::EntryPayload;
use crate::messages::HardState;
use crate::messages::InitialState;
use crate::messages::SnapshotMeta;
use crate::messages::VoteRequest;
use crate::messages::VoteResponse;
use crate::nodes::node_set_from;
use crate::snapshot::SnapshotState;
use crate::nodes::set_contains;
use crate::types::log_id_le;
use crate::types::LogId;
use crate::types::NodeId;

verus! {

/// The role of a node.
#[derive(Clone, Copy, Debug, PartialEq, Eq, Structural)]
pub enum State {
    /// Receives replication but does not vote.
    NonVoter,
    Follower,
    Candidate,
    Leader,
    Shutdown,
}

impl State {
    pub fn is_non_voter(&self) -> (r: bool)
        ensures
            r == (*self == State::NonVoter),
    {
        matches!(self, State::NonVoter)
    }

    pub fn is_follower(&self) -> (r: bool)
        ensures
            r == (*self == State::Follower),
    {
        matches!(self, State::Follower)
    }

    pub fn is_candidate(&self) -> (r: bool)
        ensures
            r == (*self == State::Candidate),
    {
        matches!(self, State::Candidate)
    }

    pub fn is_leader(&self) -> (r: bool)
        ensures
            r == (*self == State::Leader),
    {
        matches!(self, State::Leader)
    }
}

/// Who the current leader is, as learnt.
#[derive(Clone, Copy, Debug, PartialEq, Eq, Structural)]
pub enum UpdateCurrentLeader {
    Unknown,
    OtherNode(NodeId),
    ThisNode,
}

/// How a local snapshot build ended.
#[derive(Clone, Copy, Debug, PartialEq, Eq, Structural)]
pub enum SnapshotUpdate {
    /// A snapshot up to this log id was built.
    SnapshotComplete(LogId),
    SnapshotFailed,
}

/// Why an `Initialize` request was refused.
#[derive(Clone, Copy, Debug, PartialEq, Eq, Structural)]
pub enum InitializeError {
    /// The node is not pristine: it has a log or a term, or is not a non-voter.
    NotAllowed,
}

/// The role a node takes when it starts, from whether it has a log, whether
/// its configuration has a single member and whether it is a voter of it.
pub open spec fn initial_role(has_log: bool, single: bool, is_voter: bool) -> State {
    if !is_voter {
        State::NonVoter
    } else if has_log && single {
        State::Leader
    } else if has_log {
        State::Follower
    } else if single {
        State::NonVoter
    } else {
        State::Follower
    }
}

/// The role a node takes when it starts.
pub fn select_initial_state(has_log: bool, single: bool, is_voter: bool) -> (r: State)
    ensures
        r == initial_role(has_log, single, is_voter),
{
    match (has_log, single, is_voter) {
        (_, _, false) => State::NonVoter,
        (true, true, true) => State::Leader,
        (true, false, true) => State::Follower,
        (false, true, true) => State::NonVoter,
        (false, false, true) => State::Follower,
    }
}

/// The commit index after a leader reports `leader_commit` to a follower
/// whose log ends at `last`: the smaller of the two, if that is an advance.
pub open spec fn advanced_commit(commit: u64, leader_commit: u64, last: u64) -> u64 {
    let c = if leader_commit < last {
        leader_commit
    } else {
        last
    };
    if c > commit {
        c
    } else {
        commit
    }
}

/// The timeout that `draw` selects in the window `[min, max]`: `min` plus `draw`
/// modulo the number of values in the window.
pub open spec fn election_timeout_of(min: u64, max: u64, draw: u64) -> u64
    recommends
        min <= max,
{
    if max - min == u64::MAX {
        draw
    } else {
        (min + draw % ((max - min) as u64 + 1) as u64) as u64
    }
}

/// The election timeout, in milliseconds, that a random `draw` selects in the
/// window `[min, max]`.
pub fn election_timeout(min: u64, max: u64, draw: u64) -> (r: u64)
    requires
        min <= max,
    ensures
        min <= r <= max,
        r == election_timeout_of(min, max, draw),
{
    let width = max - min;
    if width == u64::MAX {
        draw
    } else {
        min + draw % (width + 1)
    }
}

/// Every timeout of the configured window is drawn by some random value.
pub proof fn lemma_election_timeout_covers_window(min: u64, max: u64, t: u64)
    requires
        min <= t <= max,
    ensures
        exists|draw: u64| election_timeout_of(min, max, draw) == t,
{
    let draw = (t - min) as u64;
    if max - min != u64::MAX {
        vstd::arithmetic::div_mod::lemma_small_mod(draw as nat, ((max - min) as u64 + 1) as nat);
    }
    assert(election_timeout_of(min, max, draw) == t);
}

/// The state of a node that its handlers decide on: the durable election
/// state, the position of its log, its commit and apply progress, its
/// membership configuration and its role.
#[derive(Debug)]
pub struct RaftCore {
    pub id: NodeId,
    pub current_term: u64,
    pub voted_for: Option<NodeId>,
    pub last_log_id: LogId,
    /// The highest index known to be replicated on a quorum.
    pub commit_index: u64,
    /// The log id of the last entry applied to the state machine.
    pub last_applied: LogId,
    pub current_leader: Option<NodeId>,
    pub membership: MembershipConfig,
    pub target_state: State,
    /// The last log id that the current snapshot covers.
    pub snapshot_last_log_id: LogId,
}

impl RaftCore {
    pub open spec fn wf(&self) -> bool {
        self.membership.wf()
    }

    /// Whether every applied entry is committed.
    pub open spec fn applied_within_commit(&self) -> bool {
        self.commit_index >= self.last_applied.index
    }

    /// Whether this node is a voter of its configuration, in either group.
    pub open spec fn is_voter(&self) -> bool {
        self.membership@.all().contains(self.id)
    }

    /// The role that asking for `s` leads to: a follower that is not a voter
    /// becomes a non-voter.
    pub open spec fn coerced(&self, s: State) -> State {
        if s == State::Follower && !self.is_voter() {
            State::NonVoter
        } else {
            s
        }
    }

    /// The role a node takes after hearing from a leader: unchanged when a
    /// follower or non-voter, else follower (or non-voter if not a voter).
    pub open spec fn following(&self) -> State {
        if self.target_state == State::Follower || self.target_state == State::NonVoter {
            self.target_state
        } else {
            self.coerced(State::Follower)
        }
    }

    /// A node started from what its store holds. Its commit index starts at 0,
    /// whatever it held before.
    pub fn new(id: NodeId, init: InitialState, snapshot_last_log_id: LogId) -> (r: RaftCore)
        requires
            init.membership.wf(),
        ensures
            r.wf(),
            r.id == id,
            r.current_term == init.hard_state.current_term,
            r.voted_for == init.hard_state.voted_for,
            r.last_log_id == init.last_log_id,
            r.last_applied == init.last_applied_log,
            r.commit_index == 0,
            r.current_leader is None,
            r.membership@ == init.membership@,
            r.snapshot_last_log_id == snapshot_last_log_id,
            init.last_applied_log.index == 0 ==> r.applied_within_commit(),
            r.target_state == initial_role(
                init.last_log_id.index != 0,
                init.membership@.members.len() == 1,
                init.membership@.all().contains(id),
            ),
    {
        let has_log = init.last_log_id.index != 0;
        let single = init.membership.members.len() == 1;
        let is_voter = init.membership.contains(&id);
        let target_state = select_initial_state(has_log, single, is_voter);
        RaftCore {
            id,
            current_term: init.hard_state.current_term,
            voted_for: init.hard_state.voted_for,
            last_log_id: init.last_log_id,
            commit_index: 0,
            last_applied: init.last_applied_log,
            current_leader: None,
            membership: init.membership,
            target_state,
            snapshot_last_log_id,
        }
    }

    /// The durable election state to save.
    pub fn hard_state(&self) -> (r: HardState)
        ensures
            r.current_term == self.current_term,
            r.voted_for == self.voted_for,
    {
        HardState { current_term: self.current_term, voted_for: self.voted_for }
    }

    /// Moves to role `s`; a follower that is not a voter becomes a non-voter.
    pub fn set_target_state(&mut self, s: State)
        ensures
            final(self).target_state == old(self).coerced(s),
            final(self).id == old(self).id,
            final(self).current_term == old(self).current_term,
            final(self).voted_for == old(self).voted_for,
            final(self).last_log_id == old(self).last_log_id,
            final(self).commit_index == old(self).commit_index,
            final(self).last_applied == old(self).last_applied,
            final(self).current_leader == old(self).current_leader,
            final(self).membership == old(self).membership,
            final(self).snapshot_last_log_id == old(self).snapshot_last_log_id,
    {
        if s == State::Follower && !self.membership.contains(&self.id) {
            self.target_state = State::NonVoter;
        } else {
            self.target_state = s;
        }
    }

    /// Adopts `new_term` with the vote `voted_for` when it is greater than
    /// the current term; else changes nothing.
    pub fn update_current_term(&mut self, new_term: u64, voted_for: Option<NodeId>)
        ensures
            new_term > old(self).current_term ==> final(self).current_term == new_term
                && final(self).voted_for == voted_for,
            new_term <= old(self).current_term ==> final(self).current_term == old(self).current_term && final(self).voted_for == old(self).voted_for,
            final(self).id == old(self).id,
            final(self).last_log_id == old(self).last_log_id,
            final(self).commit_index == old(self).commit_index,
            final(self).last_applied == old(self).last_applied,
            final(self).current_leader == old(self).current_leader,
            final(self).membership == old(self).membership,
            final(self).target_state == old(self).target_state,
            final(self).snapshot_last_log_id == old(self).snapshot_last_log_id,
    {
        if new_term > self.current_term {
            self.current_term = new_term;
            self.voted_for = voted_for;
        }
    }

    /// Takes `cfg` as the membership configuration, and moves the role to
    /// match it: a node outside it becomes a non-voter, and a non-voter that is
    /// one of its members becomes a follower.
    pub fn update_membership(&mut self, cfg: MembershipConfig)
        requires
            cfg.wf(),
        ensures
            final(self).wf(),
            final(self).membership == cfg,
            !cfg@.all().contains(old(self).id) ==> final(self).target_state == State::NonVoter,
            cfg@.all().contains(old(self).id) && old(self).target_state == State::NonVoter
                && cfg@.voters().contains(old(self).id) ==> final(self).target_state
                == State::Follower,
            cfg@.all().contains(old(self).id) && !(old(self).target_state == State::NonVoter
                && cfg@.voters().contains(old(self).id)) ==> final(self).target_state == old(self).target_state,
            final(self).id == old(self).id,
            final(self).current_term == old(self).current_term,
            final(self).voted_for == old(self).voted_for,
            final(self).last_log_id == old(self).last_log_id,
            final(self).commit_index == old(self).commit_index,
            final(self).last_applied == old(self).last_applied,
            final(self).current_leader == old(self).current_leader,
            final(self).snapshot_last_log_id == old(self).snapshot_last_log_id,
    {
        self.membership = cfg;
        if !self.membership.contains(&self.id) {
            self.set_target_state(State::NonVoter);
        } else if self.target_state == State::NonVoter && set_contains(
            &self.membership.members,
            self.id,
        ) {
            self.set_target_state(State::Follower);
        }
    }

    /// Handles `Initialize(members)`. Only a pristine non-voter (no log, term
    /// 0) accepts it: it takes `members` with itself added as its
    /// configuration, and becomes leader of term 1 when it is the only member,
    /// else a candidate.
    pub fn handle_init_with_config(&mut self, members: &Vec<NodeId>) -> (r: Result<
        (),
        InitializeError,
    >)
        requires
            old(self).wf(),
            old(self).current_term < u64::MAX,
        ensures
            final(self).wf(),
            final(self).id == old(self).id,
            final(self).commit_index == old(self).commit_index,
            final(self).last_applied == old(self).last_applied,
            final(self).last_log_id == old(self).last_log_id,
            final(self).current_leader == old(self).current_leader,
            final(self).snapshot_last_log_id == old(self).snapshot_last_log_id,
            (old(self).target_state != State::NonVoter || old(self).last_log_id.index != 0
                || old(self).current_term != 0) <==> r is Err,
            r is Err ==> r == Err::<(), InitializeError>(InitializeError::NotAllowed)
                && final(self).current_term == old(self).current_term && final(self).voted_for
                == old(self).voted_for && final(self).target_state == old(self).target_state
                && final(self).membership == old(self).membership,
            r is Ok ==> {
                &&& final(self).membership@.after is None
                &&& final(self).membership@.members.to_set() == members@.to_set().insert(
                    old(self).id,
                )
                &&& (forall|x: NodeId| #[trigger] members@.contains(x) ==> x == old(self).id)
                    ==> final(self).current_term == 1 && final(self).voted_for == Some(
                    old(self).id,
                ) && final(self).target_state == State::Leader
                &&& !(forall|x: NodeId| #[trigger] members@.contains(x) ==> x == old(self).id)
                    ==> final(self).current_term == 0 && final(self).voted_for == old(self).voted_for && final(self).target_state == State::Candidate
            },
    {
        if self.target_state != State::NonVoter || self.last_log_id.index != 0
            || self.current_term != 0 {
            return Err(InitializeError::NotAllowed);
        }
        let mut ids = node_set_from(members);
        if !set_contains(&ids, self.id) {
            ids = crate::nodes::set_insert(&ids, self.id);
        }
        let ghost s = ids@;
        assert(s.to_set() =~= members@.to_set().insert(self.id));
        assert(s.contains(self.id)) by {
            assert(s.to_set().contains(self.id));
        }
        let single = ids.len() == 1;
        proof {
            if single {
                assert forall|x: NodeId| #[trigger] members@.contains(x) implies x == self.id by {
                    assert(s.to_set().contains(x));
                    let k = choose|k: int| 0 <= k < s.len() && s[k] == x;
                    let j = choose|j: int| 0 <= j < s.len() && s[j] == self.id;
                }
            } else {
                let j = choose|j: int| 0 <= j < s.len() && s[j] == self.id;
                let other = if j == 0 { s[1] } else { s[0] };
                assert(other != self.id);
                assert(s.to_set().contains(other));
                assert(members@.to_set().contains(other));
            }
        }
        self.membership = MembershipConfig { members: ids, members_after_consensus: None };
        if single {
            self.current_term = self.current_term + 1;
            self.voted_for = Some(self.id);
            self.target_state = State::Leader;
        } else {
            self.target_state = State::Candidate;
        }
        Ok(())
    }

    /// Whether this node grants `req` its vote: the request's term is not
    /// stale, the node has not voted for another candidate in that term, and
    /// the candidate's log is at least as recent as its own.
    pub open spec fn grants_vote(&self, req: VoteRequest) -> bool {
        let voted = if req.term > self.current_term {
            None
        } else {
            self.voted_for
        };
        &&& req.term >= self.current_term
        &&& (voted is None || voted == Some(req.candidate_id))
        &&& log_id_le(
            self.last_log_id,
            LogId { term: req.last_log_term, index: req.last_log_index },
        )
    }

    /// Handles a candidate's request for a vote.
    pub fn handle_vote_request(&mut self, req: &VoteRequest) -> (r: VoteResponse)
        requires
            old(self).wf(),
        ensures
            final(self).wf(),
            r.vote_granted == old(self).grants_vote(*req),
            r.term == final(self).current_term,
            final(self).current_term >= old(self).current_term,
            req.term < old(self).current_term ==> final(self).current_term == old(self).current_term && final(self).voted_for == old(self).voted_for && final(self).target_state == old(self).target_state,
            req.term > old(self).current_term ==> final(self).current_term == req.term
                && final(self).target_state == old(self).following(),
            req.term == old(self).current_term ==> final(self).current_term == req.term
                && final(self).target_state == old(self).target_state,
            r.vote_granted ==> final(self).voted_for == Some(req.candidate_id),
            !r.vote_granted && req.term > old(self).current_term ==> final(self).voted_for
                is None,
            !r.vote_granted && req.term <= old(self).current_term ==> final(self).voted_for
                == old(self).voted_for,
            final(self).current_leader == old(self).current_leader,
            final(self).id == old(self).id,
            final(self).last_log_id == old(self).last_log_id,
            final(self).commit_index == old(self).commit_index,
            final(self).last_applied == old(self).last_applied,
            final(self).membership == old(self).membership,
            final(self).snapshot_last_log_id == old(self).snapshot_last_log_id,
    {
        if req.term < self.current_term {
            return VoteResponse { term: self.current_term, vote_granted: false };
        }
        if req.term > self.current_term {
            self.current_term = req.term;
            self.voted_for = None;
            if self.target_state != State::Follower && self.target_state != State::NonVoter {
                self.set_target_state(State::Follower);
            }
        }
        let free = match self.voted_for {
            None => true,
            Some(c) => c == req.candidate_id,
        };
        let candidate_last = LogId { term: req.last_log_term, index: req.last_log_index };
        if free && candidate_last.is_at_least(&self.last_log_id) {
            self.voted_for = Some(req.candidate_id);
            VoteResponse { term: self.current_term, vote_granted: true }
        } else {
            VoteResponse { term: self.current_term, vote_granted: false }
        }
    }

    /// Handles a leader's request to append entries, or its heartbeat.
    pub fn handle_append_entries(&mut self, log: &mut MemLog, req: AppendEntriesRequest) -> (r:
        AppendEntriesResponse)
        requires
            old(self).wf(),
            old(log).wf(),
            old(self).last_log_id == last_id(old(log)@),
            follows(req.entries@, req.prev_log_id),
            req.prev_log_id.index + req.entries@.len() <= u64::MAX,
        ensures
            final(self).wf(),
            final(log).wf(),
            final(self).last_log_id == last_id(final(log)@),
            final(self).current_term >= old(self).current_term,
            final(self).commit_index >= old(self).commit_index,
            old(self).applied_within_commit() ==> final(self).applied_within_commit(),
            req.term < old(self).current_term ==> {
                &&& r.term == old(self).current_term
                &&& !r.success
                &&& r.conflict_opt is None
                &&& final(log)@ == old(log)@
                &&& final(self).current_term == old(self).current_term
                &&& final(self).voted_for == old(self).voted_for
                &&& final(self).target_state == old(self).target_state
                &&& final(self).current_leader == old(self).current_leader
                &&& final(self).commit_index == old(self).commit_index
            },
            req.term >= old(self).current_term ==> {
                &&& final(self).current_term == req.term
                &&& r.term == req.term
                &&& req.term > old(self).current_term ==> final(self).voted_for is None
                &&& req.term == old(self).current_term ==> final(self).voted_for == old(self).voted_for
                &&& final(self).current_leader == Some(req.leader_id)
                &&& final(self).target_state == old(self).following()
            },
            req.term >= old(self).current_term && !(req.prev_log_id.index == 0 || term_at(
                old(log)@,
                req.prev_log_id.index,
            ) == Some(req.prev_log_id.term)) ==> {
                &&& !r.success
                &&& r.conflict_opt == Some(
                    ConflictOpt { log_id: conflict_hint(old(log)@, req.prev_log_id) },
                )
                &&& final(log)@ == old(log)@
                &&& final(self).commit_index == old(self).commit_index
            },
            req.term >= old(self).current_term && (req.prev_log_id.index == 0 || term_at(
                old(log)@,
                req.prev_log_id.index,
            ) == Some(req.prev_log_id.term)) ==> {
                &&& r.success
                &&& r.conflict_opt is None
                &&& final(log)@ == merged(old(log)@, req.entries@)
                &&& final(self).commit_index == advanced_commit(
                    old(self).commit_index,
                    req.leader_commit,
                    last_id(final(log)@).index,
                )
            },
            final(self).id == old(self).id,
            final(self).last_applied == old(self).last_applied,
            final(self).membership == old(self).membership,
            final(self).snapshot_last_log_id == old(self).snapshot_last_log_id,
    {
        if req.term < self.current_term {
            return AppendEntriesResponse {
                term: self.current_term,
                success: false,
                conflict_opt: None,
            };
        }
        if req.term > self.current_term {
            self.current_term = req.term;
            self.voted_for = None;
        }
        self.current_leader = Some(req.leader_id);
        if self.target_state != State::Follower && self.target_state != State::NonVoter {
            self.set_target_state(State::Follower);
        }
        let prev = req.prev_log_id;
        let consistent = prev.index == 0 || log.term_at(prev.index) == Some(prev.term);
        if !consistent {
            let hint = log.conflict_hint(prev);
            return AppendEntriesResponse {
                term: self.current_term,
                success: false,
                conflict_opt: Some(ConflictOpt { log_id: hint }),
            };
        }
        log.merge_entries(prev, req.entries);
        self.last_log_id = log.last_log_id();
        let last = self.last_log_id.index;
        let c = if req.leader_commit < last {
            req.leader_commit
        } else {
            last
        };
        if c > self.commit_index {
            self.commit_index = c;
        }
        AppendEntriesResponse { term: self.current_term, success: true, conflict_opt: None }
    }

    /// The indices to apply next, first and last: from the one after the last
    /// applied entry to the commit index; none when nothing committed is left
    /// to apply.
    pub fn next_apply_range(&self) -> (r: Option<(u64, u64)>)
        ensures
            (self.commit_index > self.last_applied.index) == (r is Some),
            r matches Some(p) ==> p.0 == self.last_applied.index + 1 && p.1 == self.commit_index,
    {
        if self.commit_index > self.last_applied.index {
            Some((self.last_applied.index + 1, self.commit_index))
        } else {
            None
        }
    }

    /// Records that the entries up to `id` were applied to the state machine.
    /// Only an advance within the committed entries is taken: then the result
    /// is true.
    pub fn record_applied(&mut self, id: LogId) -> (r: bool)
        ensures
            r == (old(self).last_applied.index < id.index && id.index <= old(self).commit_index),
            r ==> final(self).last_applied == id,
            !r ==> final(self).last_applied == old(self).last_applied,
            final(self).last_applied.index >= old(self).last_applied.index,
            old(self).applied_within_commit() ==> final(self).applied_within_commit(),
            final(self).wf() == old(self).wf(),
            final(self).id == old(self).id,
            final(self).current_term == old(self).current_term,
            final(self).voted_for == old(self).voted_for,
            final(self).last_log_id == old(self).last_log_id,
            final(self).commit_index == old(self).commit_index,
            final(self).current_leader == old(self).current_leader,
            final(self).membership == old(self).membership,
            final(self).target_state == old(self).target_state,
            final(self).snapshot_last_log_id == old(self).snapshot_last_log_id,
    {
        if self.last_applied.index < id.index && id.index <= self.commit_index {
            self.last_applied = id;
            true
        } else {
            false
        }
    }

    /// Whether to start building a snapshot: none is under way, something was
    /// applied since the last snapshot, and either `force` is set or at least
    /// `threshold` entries were applied since the last snapshot.
    pub fn should_compact(&self, threshold: u64, force: bool, snapshot_in_flight: bool) -> (r: bool)
        ensures
            r == (!snapshot_in_flight && self.last_applied.index != 0
                && self.last_applied.index >= self.snapshot_last_log_id.index && (force
                || self.last_applied.index - self.snapshot_last_log_id.index >= threshold)),
    {
        if snapshot_in_flight {
            return false;
        }
        if self.last_applied.index == 0 || self.last_applied.index < self.snapshot_last_log_id.index {
            return false;
        }
        force || self.last_applied.index - self.snapshot_last_log_id.index >= threshold
    }

    /// Takes a request of a leader of term `term`: a stale one is refused
    /// (the result is false); else the node adopts the term (forgetting its
    /// vote when the term is new), takes `leader_id` as leader and follows it.
    pub fn observe_leader(&mut self, term: u64, leader_id: NodeId) -> (r: bool)
        requires
            old(self).wf(),
        ensures
            final(self).wf(),
            r == (term >= old(self).current_term),
            final(self).current_term >= old(self).current_term,
            !r ==> final(self).current_term == old(self).current_term && final(self).voted_for
                == old(self).voted_for && final(self).current_leader == old(self).current_leader
                && final(self).target_state == old(self).target_state,
            r ==> final(self).current_term == term && final(self).current_leader == Some(leader_id)
                && final(self).target_state == old(self).following(),
            r && term > old(self).current_term ==> final(self).voted_for is None,
            r && term == old(self).current_term ==> final(self).voted_for == old(self).voted_for,
            final(self).id == old(self).id,
            final(self).last_log_id == old(self).last_log_id,
            final(self).commit_index == old(self).commit_index,
            final(self).last_applied == old(self).last_applied,
            final(self).membership == old(self).membership,
            final(self).snapshot_last_log_id == old(self).snapshot_last_log_id,
    {
        if term < self.current_term {
            return false;
        }
        if term > self.current_term {
            self.current_term = term;
            self.voted_for = None;
        }
        self.current_leader = Some(leader_id);
        if self.target_state != State::Follower && self.target_state != State::NonVoter {
            self.set_target_state(State::Follower);
        }
        true
    }

    /// Takes in a snapshot that was installed from the leader: the log, the
    /// applied entries and the snapshot all end at its last log id, the
    /// commit index reaches it, and its membership is taken.
    pub fn finalize_snapshot_installation(&mut self, meta: &SnapshotMeta)
        requires
            old(self).wf(),
            meta.membership.wf(),
        ensures
            final(self).wf(),
            final(self).last_log_id == meta.last_log_id,
            final(self).last_applied == meta.last_log_id,
            final(self).snapshot_last_log_id == meta.last_log_id,
            final(self).commit_index == (if old(self).commit_index >= meta.last_log_id.index {
                old(self).commit_index
            } else {
                meta.last_log_id.index
            }),
            final(self).applied_within_commit(),
            meta.last_log_id.index >= old(self).last_applied.index ==> final(self).last_applied.index
                >= old(self).last_applied.index,
            final(self).membership@ == meta.membership@,
            final(self).id == old(self).id,
            final(self).current_term == old(self).current_term,
            final(self).voted_for == old(self).voted_for,
            final(self).current_leader == old(self).current_leader,
    {
        self.update_membership(meta.membership.duplicate());
        self.last_log_id = meta.last_log_id;
        self.last_applied = meta.last_log_id;
        self.snapshot_last_log_id = meta.last_log_id;
        if self.commit_index < meta.last_log_id.index {
            self.commit_index = meta.last_log_id.index;
        }
    }

    /// Enters a new election: the term goes up by one, the node votes for
    /// itself, becomes candidate, and asks for votes with its last log id.
    pub fn start_election(&mut self) -> (r: VoteRequest)
        requires
            old(self).current_term < u64::MAX,
        ensures
            final(self).current_term == old(self).current_term + 1,
            final(self).voted_for == Some(old(self).id),
            final(self).target_state == State::Candidate,
            final(self).current_leader is None,
            r == (VoteRequest {
                term: final(self).current_term,
                candidate_id: old(self).id,
                last_log_index: old(self).last_log_id.index,
                last_log_term: old(self).last_log_id.term,
            }),
            final(self).wf() == old(self).wf(),
            final(self).id == old(self).id,
            final(self).last_log_id == old(self).last_log_id,
            final(self).commit_index == old(self).commit_index,
            final(self).last_applied == old(self).last_applied,
            final(self).membership == old(self).membership,
            final(self).snapshot_last_log_id == old(self).snapshot_last_log_id,
    {
        self.current_term = self.current_term + 1;
        self.voted_for = Some(self.id);
        self.target_state = State::Candidate;
        self.current_leader = None;
        VoteRequest::new(self.current_term, self.id, self.last_log_id.index, self.last_log_id.term)
    }

    /// Takes leadership of the current term.
    pub fn become_leader(&mut self)
        ensures
            final(self).target_state == State::Leader,
            final(self).current_leader == Some(old(self).id),
            final(self).wf() == old(self).wf(),
            final(self).id == old(self).id,
            final(self).current_term == old(self).current_term,
            final(self).voted_for == old(self).voted_for,
            final(self).last_log_id == old(self).last_log_id,
            final(self).commit_index == old(self).commit_index,
            final(self).last_applied == old(self).last_applied,
            final(self).membership == old(self).membership,
            final(self).snapshot_last_log_id == old(self).snapshot_last_log_id,
    {
        self.target_state = State::Leader;
        self.current_leader = Some(self.id);
    }

    /// Appends `payload` to the leader's log as an entry of the current term
    /// right after the last one, and returns its log id.
    pub fn append_payload_to_log(&mut self, log: &mut MemLog, payload: EntryPayload) -> (r: LogId)
        requires
            old(log).wf(),
            old(self).last_log_id == last_id(old(log)@),
            old(self).last_log_id.index < u64::MAX,
        ensures
            r == (LogId { term: old(self).current_term, index: (old(self).last_log_id.index + 1) as u64 }),
            final(log).wf(),
            final(log)@ == old(log)@.push(Entry { log_id: r, payload }),
            final(self).last_log_id == r,
            final(self).wf() == old(self).wf(),
            final(self).id == old(self).id,
            final(self).current_term == old(self).current_term,
            final(self).voted_for == old(self).voted_for,
            final(self).commit_index == old(self).commit_index,
            final(self).last_applied == old(self).last_applied,
            final(self).current_leader == old(self).current_leader,
            final(self).membership == old(self).membership,
            final(self).target_state == old(self).target_state,
            final(self).snapshot_last_log_id == old(self).snapshot_last_log_id,
    {
        let id = LogId { term: self.current_term, index: self.last_log_id.index + 1 };
        log.append_entry(Entry { log_id: id, payload });
        self.last_log_id = id;
        id
    }

    /// Records who the current leader is.
    pub fn update_current_leader(&mut self, update: UpdateCurrentLeader)
        ensures
            final(self).current_leader == (match update {
                UpdateCurrentLeader::ThisNode => Some(old(self).id),
                UpdateCurrentLeader::OtherNode(t) => Some(t),
                UpdateCurrentLeader::Unknown => None,
            }),
            final(self).wf() == old(self).wf(),
            final(self).id == old(self).id,
            final(self).current_term == old(self).current_term,
            final(self).voted_for == old(self).voted_for,
            final(self).last_log_id == old(self).last_log_id,
            final(self).commit_index == old(self).commit_index,
            final(self).last_applied == old(self).last_applied,
            final(self).membership == old(self).membership,
            final(self).target_state == old(self).target_state,
            final(self).snapshot_last_log_id == old(self).snapshot_last_log_id,
    {
        match update {
            UpdateCurrentLeader::ThisNode => {
                self.current_leader = Some(self.id);
            },
            UpdateCurrentLeader::OtherNode(target) => {
                self.current_leader = Some(target);
            },
            UpdateCurrentLeader::Unknown => {
                self.current_leader = None;
            },
        }
    }

    /// Takes the end of a local snapshot build: a completed one moves the
    /// snapshot's last log id; either way only a stream being received stays
    /// as snapshot activity.
    pub fn update_snapshot_state(&mut self, state: &mut Option<SnapshotState>, update: SnapshotUpdate)
        ensures
            update is SnapshotComplete ==> final(self).snapshot_last_log_id
                == update->SnapshotComplete_0,
            update is SnapshotFailed ==> final(self).snapshot_last_log_id == old(self).snapshot_last_log_id,
            (*old(state) matches Some(SnapshotState::Streaming { .. })) ==> *final(state) == *old(state),
            !(*old(state) matches Some(SnapshotState::Streaming { .. })) ==> *final(state) is None,
            final(self).wf() == old(self).wf(),
            final(self).id == old(self).id,
            final(self).current_term == old(self).current_term,
            final(self).voted_for == old(self).voted_for,
            final(self).last_log_id == old(self).last_log_id,
            final(self).commit_index == old(self).commit_index,
            final(self).last_applied == old(self).last_applied,
            final(self).current_leader == old(self).current_leader,
            final(self).membership == old(self).membership,
            final(self).target_state == old(self).target_state,
    {
        if let SnapshotUpdate::SnapshotComplete(id) = update {
            self.snapshot_last_log_id = id;
        }
        let keep = match state {
            Some(SnapshotState::Streaming { .. }) => true,
            _ => false,
        };
        if !keep {
            *state = None;
        }
    }

    /// The entries to apply before the committed entry at `index` can be:
    /// those after the last applied one and before `index`, when there are.
    pub fn apply_catch_up_range(&self, index: u64) -> (r: Option<(u64, u64)>)
        ensures
            (index > self.last_applied.index + 1) == (r is Some),
            r matches Some(p) ==> p.0 == self.last_applied.index + 1 && p.1 == index - 1,
    {
        if index > self.last_applied.index && index - self.last_applied.index > 1 {
            Some((self.last_applied.index + 1, index - 1))
        } else {
            None
        }
    }
}

/// A node votes once per term: once it voted for `c` in its current term, it
/// grants no other candidate of that term.
pub proof fn lemma_one_vote_per_term(node: RaftCore, req: VoteRequest, c: NodeId)
    requires
        node.voted_for == Some(c),
        req.term == node.current_term,
        node.grants_vote(req),
    ensures
        req.candidate_id == c,
{
}

} // verus!
