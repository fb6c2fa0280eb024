use vstd::prelude::*;

use crate::membership::MembershipConfig;
use crate::membership::MembershipView;
use crate::messages::AppendEntriesResponse;
use crate::messages::Entry;
use crate::messages::EntryConfigChange;
use crate::messages::EntryPayload;
use crate::messages::VoteResponse;
use crate::node::RaftCore;
use crate::node::State;
use crate::nodes::lemma_majorities_intersect;
use crate::nodes::node_set_from;
use crate::nodes::set_contains;
use crate::nodes::set_difference;
use crate::nodes::set_insert;
use crate::nodes::strictly_sorted;
use crate::types::log_id_le;
use crate::types::LogId;
use crate::types::NodeId;

verus! {

/// The payload a new leader appends first: its configuration when the log is
/// empty; the final configuration when the last entry is a joint
/// configuration, which completes a membership change that a former leader
/// left half done; else a blank entry.
pub fn initial_leader_payload(
    last_log_index: u64,
    last_entry: Option<&Entry>,
    membership: &MembershipConfig,
) -> (r: EntryPayload)
    ensures
        last_log_index == 0 ==> (r matches EntryPayload::ConfigChange(c) && c.membership@ == membership@),
        last_log_index != 0 && last_entry_is_joint(last_entry) ==> (r matches EntryPayload::ConfigChange(c)
            && c.membership@ == joint_of(last_entry)@.final_config()),
        last_log_index != 0 && !last_entry_is_joint(last_entry) ==> r is Blank,
{
    if last_log_index == 0 {
        return EntryPayload::ConfigChange(EntryConfigChange { membership: membership.duplicate() });
    }
    match last_entry {
        Some(e) => match &e.payload {
            EntryPayload::ConfigChange(c) => {
                if c.membership.is_in_joint_consensus() {
                    EntryPayload::ConfigChange(
                        EntryConfigChange { membership: c.membership.to_final_config() },
                    )
                } else {
                    EntryPayload::Blank
                }
            },
            _ => EntryPayload::Blank,
        },
        None => EntryPayload::Blank,
    }
}

/// Whether `e` is an entry holding a joint configuration.
pub open spec fn last_entry_is_joint(e: Option<&Entry>) -> bool {
    e matches Some(x) && x.payload matches EntryPayload::ConfigChange(c) && c.membership@.is_joint()
}

/// The configuration held by `e`, when it holds one.
pub open spec fn joint_of(e: Option<&Entry>) -> MembershipConfig {
    match e {
        Some(x) => match x.payload {
            EntryPayload::ConfigChange(c) => c.membership,
            _ => arbitrary(),
        },
        None => arbitrary(),
    }
}

/// The nodes that confirmed something to a candidate or a leader: votes
/// granted in an election, or acknowledgements of a read.
#[derive(Clone, Debug, PartialEq, Eq)]
pub struct QuorumTally {
    /// The nodes that confirmed, in increasing order.
    pub granted: Vec<NodeId>,
}

/// What a candidate does after a vote response.
#[derive(Clone, Copy, Debug, PartialEq, Eq, Structural)]
pub enum VoteOutcome {
    /// Keep waiting for votes.
    Pending,
    /// The votes form a quorum: become leader.
    BecomeLeader,
    /// A greater term was seen: adopt it and become follower.
    RevertToFollower { term: u64 },
}

impl QuorumTally {
    pub open spec fn wf(&self) -> bool {
        strictly_sorted(self.granted@)
    }

    pub open spec fn confirmed(&self) -> Set<NodeId> {
        self.granted@.to_set()
    }

    /// A tally that counts `self_id` alone.
    pub fn new(self_id: NodeId) -> (r: QuorumTally)
        ensures
            r.wf(),
            r.confirmed() == set![self_id],
    {
        let granted = vec![self_id];
        proof {
            granted@.lemma_push_to_set_commute(self_id);
            assert(granted@ == Seq::<NodeId>::empty().push(self_id));
            assert(Seq::<NodeId>::empty().to_set() =~= Set::<NodeId>::empty());
            assert(granted@.to_set() =~= set![self_id]);
        }
        QuorumTally { granted }
    }

    /// Counts `from` as having confirmed.
    pub fn record(&mut self, from: NodeId)
        requires
            old(self).wf(),
        ensures
            final(self).wf(),
            final(self).confirmed() == old(self).confirmed().insert(from),
    {
        self.granted = set_insert(&self.granted, from);
    }

    /// Whether the confirmations form a quorum of `membership`.
    pub fn has_quorum(&self, membership: &MembershipConfig) -> (r: bool)
        ensures
            r == membership@.is_quorum(self.confirmed()),
    {
        membership.is_quorum(&self.granted)
    }

    /// Takes the response of `from` to a candidate's vote request of term
    /// `term`: a greater term makes the candidate revert to follower; a granted
    /// vote is counted, and a quorum of votes makes it leader.
    pub fn handle_vote_response(
        &mut self,
        from: NodeId,
        resp: &VoteResponse,
        term: u64,
        membership: &MembershipConfig,
    ) -> (r: VoteOutcome)
        requires
            old(self).wf(),
        ensures
            final(self).wf(),
            resp.term > term ==> r == (VoteOutcome::RevertToFollower { term: resp.term })
                && final(self).confirmed() == old(self).confirmed(),
            resp.term <= term && !resp.vote_granted ==> r == VoteOutcome::Pending
                && final(self).confirmed() == old(self).confirmed(),
            resp.term <= term && resp.vote_granted ==> final(self).confirmed() == old(
                self).confirmed().insert(from),
            resp.term <= term && resp.vote_granted ==> (r == VoteOutcome::BecomeLeader
                <==> membership@.is_quorum(final(self).confirmed())),
            resp.term <= term && resp.vote_granted ==> (r == VoteOutcome::Pending
                <==> !membership@.is_quorum(final(self).confirmed())),
    {
        if resp.term > term {
            return VoteOutcome::RevertToFollower { term: resp.term };
        }
        if !resp.vote_granted {
            return VoteOutcome::Pending;
        }
        self.record(from);
        if self.has_quorum(membership) {
            VoteOutcome::BecomeLeader
        } else {
            VoteOutcome::Pending
        }
    }

    /// Takes the reply of `from` to the heartbeat that a leader of term `term`
    /// sent to confirm a read: a greater term makes it revert to follower; a
    /// success is counted, and a quorum of them confirms the read.
    pub fn handle_read_response(
        &mut self,
        from: NodeId,
        resp: &AppendEntriesResponse,
        term: u64,
        membership: &MembershipConfig,
    ) -> (r: ReadOutcome)
        requires
            old(self).wf(),
        ensures
            final(self).wf(),
            resp.term > term ==> r == (ReadOutcome::RevertToFollower { term: resp.term })
                && final(self).confirmed() == old(self).confirmed(),
            resp.term <= term && !resp.success ==> final(self).confirmed() == old(self).confirmed()
                && (r == ReadOutcome::Confirmed <==> membership@.is_quorum(old(self).confirmed()))
                && (r == ReadOutcome::Pending <==> !membership@.is_quorum(old(self).confirmed())),
            resp.term <= term && resp.success ==> final(self).confirmed() == old(
                self).confirmed().insert(from) && (r == ReadOutcome::Confirmed
                <==> membership@.is_quorum(final(self).confirmed())) && (r == ReadOutcome::Pending
                <==> !membership@.is_quorum(final(self).confirmed())),
    {
        if resp.term > term {
            return ReadOutcome::RevertToFollower { term: resp.term };
        }
        if resp.success {
            self.record(from);
        }
        if self.has_quorum(membership) {
            ReadOutcome::Confirmed
        } else {
            ReadOutcome::Pending
        }
    }
}

/// What a leader does after a reply to the heartbeat that confirms a read.
#[derive(Clone, Copy, Debug, PartialEq, Eq, Structural)]
pub enum ReadOutcome {
    /// Keep waiting for replies.
    Pending,
    /// A quorum confirmed the leadership: the read may be served.
    Confirmed,
    /// A greater term was seen: adopt it, become follower, fail the read.
    RevertToFollower { term: u64 },
}

/// What committing a configuration entry sets off on the leader.
#[derive(Clone, Copy, Debug, PartialEq, Eq, Structural)]
pub enum SpecialLog {
    /// The entry is no configuration.
    Plain,
    /// A joint configuration committed.
    JointCommitted,
    /// A final configuration committed.
    UniformCommitted,
}

/// What a committed entry sets off on the leader, by its payload.
pub fn handle_special_log(payload: &EntryPayload) -> (r: SpecialLog)
    ensures
        (payload matches EntryPayload::ConfigChange(c) && c.membership@.is_joint()) <==> r
            == SpecialLog::JointCommitted,
        (payload matches EntryPayload::ConfigChange(c) && !c.membership@.is_joint()) <==> r
            == SpecialLog::UniformCommitted,
        !(payload is ConfigChange) <==> r == SpecialLog::Plain,
{
    match payload {
        EntryPayload::ConfigChange(c) => {
            if c.membership.is_in_joint_consensus() {
                SpecialLog::JointCommitted
            } else {
                SpecialLog::UniformCommitted
            }
        },
        _ => SpecialLog::Plain,
    }
}

/// Why a membership change was refused.
#[derive(Clone, Copy, Debug, PartialEq, Eq, Structural)]
pub enum ChangeConfigError {
    /// A change is already under way.
    ConfigChangeInProgress,
    /// The proposed configuration has no member.
    InoperableConfig,
    /// The change would change nothing.
    Noop,
}

/// The membership-change state of a leader.
#[derive(Clone, Debug, PartialEq, Eq)]
pub enum ConsensusState {
    /// No change is under way.
    Uniform,
    /// New nodes are being brought up to date before joint consensus begins.
    NonVoterSync { awaiting: Vec<NodeId>, members: Vec<NodeId> },
    /// The joint configuration was appended; `is_committed` once it committed.
    Joint { is_committed: bool },
}

impl ConsensusState {
    /// Whether joint consensus may be finalized: its entry has committed.
    pub fn is_joint_consensus_safe_to_finalize(&self) -> (r: bool)
        ensures
            r == (*self == (ConsensusState::Joint { is_committed: true })),
    {
        match self {
            ConsensusState::Joint { is_committed } => *is_committed,
            _ => false,
        }
    }
}

/// Whether the non-voter records `nv` hold `id`, and whether the first record
/// of it is ready to join.
pub open spec fn non_voter_of(nv: Seq<(NodeId, bool)>, id: NodeId) -> Option<bool>
    decreases nv.len(),
{
    if nv.len() == 0 {
        None
    } else if nv[0].0 == id {
        Some(nv[0].1)
    } else {
        non_voter_of(nv.drop_first(), id)
    }
}

fn lookup_non_voter(nv: &Vec<(NodeId, bool)>, id: NodeId) -> (r: Option<bool>)
    ensures
        r == non_voter_of(nv@, id),
{
    let mut i: usize = 0;
    assert(nv@.skip(0) == nv@);
    while i < nv.len()
        invariant
            i <= nv.len(),
            non_voter_of(nv@, id) == non_voter_of(nv@.skip(i as int), id),
        decreases nv.len() - i,
    {
        assert(nv@.skip(i as int).drop_first() == nv@.skip(i + 1));
        if nv[i].0 == id {
            return Some(nv[i].1);
        }
        i = i + 1;
    }
    None
}

/// What a leader does with a proposed membership.
#[derive(Clone, Debug, PartialEq, Eq)]
pub enum MembershipPlan {
    /// Bring the `awaiting` nodes up to date first, starting replication to
    /// those in `spawn`, which have none yet.
    AwaitSync { awaiting: Vec<NodeId>, spawn: Vec<NodeId> },
    /// Append the joint configuration, then the final one; the leader steps
    /// down once the final one commits when `stepping_down`.
    EnterJoint { joint: MembershipConfig, final_config: MembershipConfig, stepping_down: bool },
}

/// The nodes of `proposed` that are new to `members`.
pub open spec fn new_nodes(proposed: Seq<NodeId>, members: Seq<NodeId>) -> Set<NodeId> {
    proposed.to_set().difference(members.to_set())
}

/// Plans a change of the voters of `current` to `proposed`. An empty
/// proposal is refused, and so is any proposal while a change is under way.
/// New nodes that are not non-voters ready to join are awaited; once none is,
/// joint consensus is entered.
pub fn plan_membership_change(
    state: &ConsensusState,
    current: &MembershipConfig,
    proposed: &Vec<NodeId>,
    non_voters: &Vec<(NodeId, bool)>,
    self_id: NodeId,
) -> (r: Result<MembershipPlan, ChangeConfigError>)
    requires
        current.wf(),
    ensures
        proposed@.len() == 0 ==> r == Err::<MembershipPlan, ChangeConfigError>(
            ChangeConfigError::InoperableConfig,
        ),
        proposed@.len() > 0 && !(*state is Uniform) ==> r == Err::<
            MembershipPlan,
            ChangeConfigError,
        >(ChangeConfigError::ConfigChangeInProgress),
        proposed@.len() > 0 && (*state is Uniform) ==> (r matches Ok(p) && (
        match p {
            MembershipPlan::AwaitSync { awaiting, spawn } => {
                &&& strictly_sorted(awaiting@)
                &&& strictly_sorted(spawn@)
                &&& awaiting@.len() > 0
                &&& awaiting@.to_set() == new_nodes(proposed@, current@.members).filter(
                    |n: NodeId| non_voter_of(non_voters@, n) != Some(true),
                )
                &&& spawn@.to_set() == new_nodes(proposed@, current@.members).filter(
                    |n: NodeId| non_voter_of(non_voters@, n) is None,
                )
            },
            MembershipPlan::EnterJoint { joint, final_config, stepping_down } => {
                &&& forall|n: NodeId| #[trigger]
                    new_nodes(proposed@, current@.members).contains(n) ==> non_voter_of(
                        non_voters@,
                        n,
                    ) == Some(true)
                &&& joint@.members == current@.members
                &&& joint@.after matches Some(a) && strictly_sorted(a) && a.to_set()
                    == proposed@.to_set()
                &&& final_config@.after is None
                &&& strictly_sorted(final_config@.members)
                &&& final_config@.members.to_set() == proposed@.to_set()
                &&& stepping_down == !proposed@.contains(self_id)
            },
        })),
{
    if proposed.len() == 0 {
        return Err(ChangeConfigError::InoperableConfig);
    }
    match state {
        ConsensusState::Uniform => {},
        _ => {
            return Err(ChangeConfigError::ConfigChangeInProgress);
        },
    }
    let members = node_set_from(proposed);
    let fresh = set_difference(&members, &current.members);
    let ghost nn = new_nodes(proposed@, current@.members);
    assert(fresh@.to_set() =~= nn);
    let mut awaiting: Vec<NodeId> = Vec::new();
    let mut spawn: Vec<NodeId> = Vec::new();
    let mut i: usize = 0;
    while i < fresh.len()
        invariant
            i <= fresh.len(),
            strictly_sorted(fresh@),
            strictly_sorted(awaiting@),
            strictly_sorted(spawn@),
            awaiting@.len() > 0 && i < fresh.len() ==> awaiting@.last() < fresh@[i as int],
            spawn@.len() > 0 && i < fresh.len() ==> spawn@.last() < fresh@[i as int],
            awaiting@.to_set() == fresh@.take(i as int).to_set().filter(
                |n: NodeId| non_voter_of(non_voters@, n) != Some(true),
            ),
            spawn@.to_set() == fresh@.take(i as int).to_set().filter(
                |n: NodeId| non_voter_of(non_voters@, n) is None,
            ),
        decreases fresh.len() - i,
    {
        let n = fresh[i];
        let ghost pre = fresh@.take(i as int);
        let ghost old_a = awaiting@;
        let ghost old_s = spawn@;
        let found = lookup_non_voter(non_voters, n);
        match found {
            Some(true) => {},
            Some(false) => {
                awaiting.push(n);
            },
            None => {
                awaiting.push(n);
                spawn.push(n);
            },
        }
        i = i + 1;
        proof {
            assert(fresh@.take(i as int) == pre.push(n));
            pre.lemma_push_to_set_commute(n);
            old_a.lemma_push_to_set_commute(n);
            old_s.lemma_push_to_set_commute(n);
            assert(awaiting@.to_set() =~= fresh@.take(i as int).to_set().filter(
                |n: NodeId| non_voter_of(non_voters@, n) != Some(true),
            ));
            assert(spawn@.to_set() =~= fresh@.take(i as int).to_set().filter(
                |n: NodeId| non_voter_of(non_voters@, n) is None,
            ));
        }
    }
    assert(fresh@.take(fresh@.len() as int) == fresh@);
    if awaiting.len() > 0 {
        return Ok(MembershipPlan::AwaitSync { awaiting, spawn });
    }
    proof {
        assert forall|n: NodeId| #[trigger] nn.contains(n) implies non_voter_of(non_voters@, n)
            == Some(true) by {
            if non_voter_of(non_voters@, n) != Some(true) {
                assert(awaiting@.to_set().contains(n));
            }
        }
    }
    let stepping_down = !set_contains(&members, self_id);
    proof {
        assert(members@.to_set().contains(self_id) == proposed@.contains(self_id));
    }
    let joint = MembershipConfig {
        members: current.members.clone(),
        members_after_consensus: Some(members.clone()),
    };
    let final_config = MembershipConfig { members, members_after_consensus: None };
    Ok(MembershipPlan::EnterJoint { joint, final_config, stepping_down })
}

/// Checks a request to add `target` as a non-voter: it is refused when the
/// node is already a voter in either group, or already a non-voter.
pub fn check_add_non_voter(
    membership: &MembershipConfig,
    non_voters: &Vec<(NodeId, bool)>,
    target: NodeId,
) -> (r: Result<(), ChangeConfigError>)
    ensures
        r is Err <==> (membership@.all().contains(target) || non_voter_of(non_voters@, target) is Some),
        r is Err ==> r == Err::<(), ChangeConfigError>(ChangeConfigError::Noop),
{
    if membership.contains(&target) || lookup_non_voter(non_voters, target).is_some() {
        Err(ChangeConfigError::Noop)
    } else {
        Ok(())
    }
}

/// The nodes to move from non-voters to voters' replication once the joint
/// configuration commits: those of the configuration, but this leader, that
/// are not among its current members.
pub fn nodes_to_promote(membership: &MembershipConfig, self_id: NodeId) -> (r: Vec<NodeId>)
    requires
        membership.wf(),
    ensures
        strictly_sorted(r@),
        r@.to_set() == membership@.all().difference(membership@.voters()).remove(self_id),
{
    let all = membership.all_nodes();
    let fresh = set_difference(&all, &membership.members);
    let only_self = vec![self_id];
    let r = set_difference(&fresh, &only_self);
    proof {
        assert(only_self@ == seq![self_id]);
        assert(only_self@.to_set() =~= set![self_id]) by {
            assert(only_self@[0] == self_id);
        }
        assert(r@.to_set() =~= membership@.all().difference(membership@.voters()).remove(self_id));
    }
    r
}

/// The ids of the records of `nodes` outside `membership` whose matched
/// index reaches `index` (when `reached`) or falls short of it (when not), in
/// their order.
pub open spec fn outside_nodes(
    nodes: Seq<(NodeId, u64)>,
    membership: MembershipView,
    index: u64,
    reached: bool,
) -> Seq<NodeId>
    decreases nodes.len(),
{
    if nodes.len() == 0 {
        Seq::empty()
    } else {
        let rest = outside_nodes(nodes.drop_last(), membership, index, reached);
        let n = nodes.last();
        if !membership.all().contains(n.0) && (n.1 >= index) == reached {
            rest.push(n.0)
        } else {
            rest
        }
    }
}

/// Splits the voters' replication streams once the final configuration of
/// index `index` commits: streams to nodes outside `membership` that matched
/// `index` stop now (the first result); the other outside nodes stop once
/// they catch up (the second).
pub fn plan_removals(nodes: &Vec<(NodeId, u64)>, membership: &MembershipConfig, index: u64) -> (r: (
    Vec<NodeId>,
    Vec<NodeId>,
))
    ensures
        r.0@ == outside_nodes(nodes@, membership@, index, true),
        r.1@ == outside_nodes(nodes@, membership@, index, false),
{
    let mut now: Vec<NodeId> = Vec::new();
    let mut later: Vec<NodeId> = Vec::new();
    let mut i: usize = 0;
    while i < nodes.len()
        invariant
            i <= nodes.len(),
            now@ == outside_nodes(nodes@.take(i as int), membership@, index, true),
            later@ == outside_nodes(nodes@.take(i as int), membership@, index, false),
        decreases nodes.len() - i,
    {
        assert(nodes@.take(i + 1).drop_last() == nodes@.take(i as int));
        let (id, matched) = nodes[i];
        if !membership.contains(&id) {
            if matched >= index {
                now.push(id);
            } else {
                later.push(id);
            }
        }
        i = i + 1;
    }
    assert(nodes@.take(nodes@.len() as int) == nodes@);
    (now, later)
}

impl RaftCore {
    /// Finalizes joint consensus: the members after become the members, and
    /// no change is under way any more.
    pub fn finalize_joint_consensus(&mut self, state: &mut ConsensusState)
        requires
            old(self).wf(),
        ensures
            final(self).wf(),
            final(self).membership@ == old(self).membership@.final_config(),
            *final(state) == ConsensusState::Uniform,
            final(self).id == old(self).id,
            final(self).current_term == old(self).current_term,
            final(self).commit_index == old(self).commit_index,
            final(self).last_applied == old(self).last_applied,
            final(self).last_log_id == old(self).last_log_id,
            final(self).target_state == old(self).target_state,
    {
        self.membership = self.membership.to_final_config();
        *state = ConsensusState::Uniform;
    }

    /// Handles the commit of the joint configuration: the change is marked
    /// committed and finalized. The result says whether it was finalized.
    pub fn handle_joint_consensus_committed(&mut self, state: &mut ConsensusState) -> (r: bool)
        requires
            old(self).wf(),
        ensures
            final(self).wf(),
            r == (*old(state) is Joint),
            r ==> final(self).membership@ == old(self).membership@.final_config()
                && *final(state) == ConsensusState::Uniform,
            !r ==> final(self).membership == old(self).membership && *final(state) == *old(
                state),
            final(self).id == old(self).id,
            final(self).current_term == old(self).current_term,
            final(self).commit_index == old(self).commit_index,
            final(self).last_applied == old(self).last_applied,
            final(self).target_state == old(self).target_state,
    {
        if let ConsensusState::Joint { is_committed } = state {
            *is_committed = true;
        }
        if state.is_joint_consensus_safe_to_finalize() {
            self.finalize_joint_consensus(state);
            true
        } else {
            false
        }
    }

    /// Handles the commit of the final configuration at `index`: a leader
    /// outside it steps down to non-voter with no known leader, and stops no
    /// stream here; else the voters' streams `nodes` (with their matched
    /// indices) are split as `plan_removals` does.
    pub fn handle_uniform_consensus_committed(
        &mut self,
        is_stepping_down: bool,
        nodes: &Vec<(NodeId, u64)>,
        index: u64,
    ) -> (r: (Vec<NodeId>, Vec<NodeId>))
        ensures
            is_stepping_down ==> final(self).target_state == State::NonVoter
                && final(self).current_leader is None && r.0@.len() == 0 && r.1@.len() == 0,
            !is_stepping_down ==> r.0@ == outside_nodes(nodes@, old(self).membership@, index, true)
                && r.1@ == outside_nodes(nodes@, old(self).membership@, index, false)
                && final(self).target_state == old(self).target_state && final(self).current_leader
                == old(self).current_leader,
            final(self).membership == old(self).membership,
            final(self).id == old(self).id,
            final(self).current_term == old(self).current_term,
            final(self).commit_index == old(self).commit_index,
            final(self).last_applied == old(self).last_applied,
    {
        if is_stepping_down {
            self.set_target_state(State::NonVoter);
            self.current_leader = None;
            return (Vec::new(), Vec::new());
        }
        plan_removals(nodes, &self.membership, index)
    }
}

/// At most one leader per term. Within a term every node grants its vote to
/// one candidate at most, so two candidates that each gathered a quorum of
/// votes of the same configuration are the same candidate: `granted(c)` is
/// the set of nodes that voted for `c` in the term.
pub proof fn lemma_at_most_one_leader_per_term(
    membership: MembershipView,
    granted: spec_fn(NodeId) -> Set<NodeId>,
    c1: NodeId,
    c2: NodeId,
)
    requires
        forall|v: NodeId, x: NodeId, y: NodeId|
            #[trigger] granted(x).contains(v) && #[trigger] granted(y).contains(v) ==> x == y,
        membership.is_quorum(granted(c1)),
        membership.is_quorum(granted(c2)),
    ensures
        c1 == c2,
{
    lemma_majorities_intersect(membership.members, granted(c1), granted(c2));
    let v = choose|v: NodeId| membership.members.contains(v) && granted(c1).contains(v) && granted(c2).contains(v);
}

/// The log of an elected leader reaches every committed entry. A voter
/// grants its vote only to a candidate whose last log id is at least its own
/// (`last_of(v)` for voter `v`), and a committed entry `e` is held by a quorum
/// (`holders`, whose last log ids reach `e`). Any two quorums share a voter,
/// so the candidate's last log id reaches `e`.
pub proof fn lemma_elected_log_reaches_committed(
    membership: MembershipView,
    granted: Set<NodeId>,
    holders: Set<NodeId>,
    last_of: spec_fn(NodeId) -> LogId,
    candidate_last: LogId,
    e: LogId,
)
    requires
        membership.is_quorum(granted),
        membership.is_quorum(holders),
        forall|v: NodeId| granted.contains(v) ==> log_id_le(#[trigger] last_of(v), candidate_last),
        forall|v: NodeId| holders.contains(v) ==> log_id_le(e, #[trigger] last_of(v)),
    ensures
        log_id_le(e, candidate_last),
{
    lemma_majorities_intersect(membership.members, granted, holders);
    let v = choose|v: NodeId| membership.members.contains(v) && granted.contains(v) && holders.contains(v);
    assert(log_id_le(last_of(v), candidate_last));
    assert(log_id_le(e, last_of(v)));
}

} // verus!
