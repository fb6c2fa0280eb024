use vstd::prelude::*;

use crate::nodes::has_majority;
use crate::nodes::is_majority;
use crate::nodes::set_contains;
use crate::nodes::set_union;
use crate::nodes::strictly_sorted;
use crate::types::NodeId;

verus! {

/// The membership configuration of the cluster. While `members_after_consensus`
/// is present the cluster is in joint consensus, and a quorum needs a majority
/// of both groups.
#[derive(Clone, Debug, Default, PartialEq, Eq)]
pub struct MembershipConfig {
    /// The voters of the cluster, in increasing order.
    pub members: Vec<NodeId>,
    /// The voters after joint consensus is finalized, in increasing order.
    pub members_after_consensus: Option<Vec<NodeId>>,
}

/// The mathematical value of a configuration: its voters and, in joint
/// consensus, the voters that come after.
pub struct MembershipView {
    pub members: Seq<NodeId>,
    pub after: Option<Seq<NodeId>>,
}

impl View for MembershipConfig {
    type V = MembershipView;

    open spec fn view(&self) -> MembershipView {
        MembershipView {
            members: self.members@,
            after: match self.members_after_consensus {
                Some(a) => Some(a@),
                None => None,
            },
        }
    }
}

impl MembershipView {
    pub open spec fn wf(self) -> bool {
        &&& strictly_sorted(self.members)
        &&& (self.after matches Some(a) ==> strictly_sorted(a))
    }

    pub open spec fn voters(self) -> Set<NodeId> {
        self.members.to_set()
    }

    pub open spec fn voters_after(self) -> Set<NodeId> {
        match self.after {
            Some(a) => a.to_set(),
            None => Set::empty(),
        }
    }

    /// Every node of the configuration, in either group.
    pub open spec fn all(self) -> Set<NodeId> {
        self.voters().union(self.voters_after())
    }

    pub open spec fn is_joint(self) -> bool {
        self.after is Some
    }

    /// The configuration that finalizing joint consensus leads to.
    pub open spec fn final_config(self) -> MembershipView {
        match self.after {
            Some(a) => MembershipView { members: a, after: None },
            None => MembershipView { members: self.members, after: None },
        }
    }

    /// Whether the nodes of `g` form a quorum: a majority of `members` and,
    /// in joint consensus, a majority of the members after as well.
    pub open spec fn is_quorum(self, g: Set<NodeId>) -> bool {
        &&& is_majority(self.members, g)
        &&& (self.after matches Some(a) ==> is_majority(a, g))
    }
}

impl MembershipConfig {
    pub open spec fn wf(&self) -> bool {
        self@.wf()
    }

    /// A copy of the configuration.
    pub fn duplicate(&self) -> (r: MembershipConfig)
        ensures
            r@ == self@,
    {
        let after = match &self.members_after_consensus {
            Some(a) => Some(a.clone()),
            None => None,
        };
        MembershipConfig { members: self.members.clone(), members_after_consensus: after }
    }

    /// Every node of the configuration, in increasing order.
    pub fn all_nodes(&self) -> (r: Vec<NodeId>)
        requires
            self.wf(),
        ensures
            strictly_sorted(r@),
            r@.to_set() == self@.all(),
    {
        match &self.members_after_consensus {
            Some(a) => set_union(&self.members, a),
            None => {
                let r = self.members.clone();
                assert(r@.to_set() =~= self@.all());
                r
            },
        }
    }

    /// Whether `x` is a node of the configuration, in either group.
    pub fn contains(&self, x: &NodeId) -> (r: bool)
        ensures
            r == self@.all().contains(*x),
    {
        if set_contains(&self.members, *x) {
            true
        } else {
            match &self.members_after_consensus {
                Some(a) => set_contains(a, *x),
                None => false,
            }
        }
    }

    /// Whether the configuration is in joint consensus.
    pub fn is_in_joint_consensus(&self) -> (r: bool)
        ensures
            r == self@.is_joint(),
    {
        self.members_after_consensus.is_some()
    }

    /// The configuration of a pristine node: itself alone.
    pub fn new_initial(id: NodeId) -> (r: MembershipConfig)
        ensures
            r@.members == seq![id],
            r@.after is None,
            r.wf(),
    {
        let members = vec![id];
        assert(members@ == seq![id]);
        MembershipConfig { members, members_after_consensus: None }
    }

    /// The configuration that finalizing joint consensus leads to: the
    /// members after, or the configuration itself when not joint.
    pub fn to_final_config(&self) -> (r: MembershipConfig)
        ensures
            r@ == self@.final_config(),
    {
        match &self.members_after_consensus {
            None => self.duplicate(),
            Some(m) => MembershipConfig { members: m.clone(), members_after_consensus: None },
        }
    }

    /// Whether the nodes in `granted` form a quorum of this configuration.
    pub fn is_quorum(&self, granted: &Vec<NodeId>) -> (r: bool)
        ensures
            r == self@.is_quorum(granted@.to_set()),
    {
        if !has_majority(&self.members, granted) {
            return false;
        }
        match &self.members_after_consensus {
            Some(a) => has_majority(a, granted),
            None => true,
        }
    }
}

} // verus!
