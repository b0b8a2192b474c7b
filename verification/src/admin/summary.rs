//! What a coordinator answers when asked about its cluster.

use vstd::prelude::*;

use crate::admin::authz;
use crate::admin::authz::{AdminService, Binding, Caller, Replicated, Seam, Verb};
use crate::cluster::{ClusterSummary, MemberSummary};
use crate::formation::phase;
use crate::formation::phase::PhaseState;
use crate::seats;
use crate::seats::Seat;
use crate::status;
use crate::status::Status;
use crate::wire::{
    ClusterHealth, ClusterStatusResponse, KeyHolder, MachineBinding, Membership,
    PendingKeyTransfer, ProbeClusterResponse, RaftMember, ReplicationProgress, VoterConfig,
};

verus! {

// ---------------------------------------------------------------------------
// Ascending order
// ---------------------------------------------------------------------------

/// Whether the numbers never fall.
pub open spec fn ascending(s: Seq<u64>) -> bool {
    forall|i: int, j: int| 0 <= i <= j < s.len() ==> s[i] <= s[j]
}

/// The identifiers of the voters, in membership order.
pub open spec fn voter_ids(members: Seq<MemberSummary>) -> Seq<u64>
    decreases members.len(),
{
    if members.len() == 0 {
        seq![]
    } else if members.last().voter {
        voter_ids(members.drop_last()).push(members.last().id)
    } else {
        voter_ids(members.drop_last())
    }
}

/// The seats of a membership on the wire, in its order.
pub open spec fn wire_seats(members: Seq<RaftMember>) -> Seq<Seat> {
    members.map_values(|m: RaftMember| (m.node_id, m.address@))
}

/// The voters in ascending order.
fn sorted_voters(members: &Vec<MemberSummary>) -> (r: Vec<u64>)
    ensures
        ascending(r@),
        r@.to_multiset() == voter_ids(members@).to_multiset(),
{
    broadcast use vstd::seq_lib::group_to_multiset_ensures;

    let mut out: Vec<u64> = Vec::new();
    let mut i: usize = 0;
    assert(out@ =~= voter_ids(members@.subrange(0, 0)));
    while i < members.len()
        invariant
            i <= members@.len(),
            ascending(out@),
            out@.to_multiset() == voter_ids(members@.subrange(0, i as int)).to_multiset(),
        decreases members@.len() - i,
    {
        broadcast use vstd::seq_lib::group_to_multiset_ensures;

        assert(members@.subrange(0, i + 1).drop_last() =~= members@.subrange(0, i as int));
        if members[i].voter {
            let id = members[i].id;
            let mut at: usize = out.len();
            while at > 0 && out[at - 1] > id
                invariant
                    at <= out@.len(),
                    ascending(out@),
                    forall|k: int| at <= k < out@.len() ==> #[trigger] out@[k] > id,
                decreases at,
            {
                at = at - 1;
            }
            let ghost before = out@;
            out.insert(at, id);
            proof {
                assert(before =~= before.subrange(0, at as int) + before.subrange(
                    at as int,
                    before.len() as int,
                ));
                assert(out@ =~= before.subrange(0, at as int).push(id) + before.subrange(
                    at as int,
                    before.len() as int,
                ));
                vstd::seq_lib::lemma_multiset_commutative(
                    before.subrange(0, at as int).push(id),
                    before.subrange(at as int, before.len() as int),
                );
                vstd::seq_lib::lemma_multiset_commutative(
                    before.subrange(0, at as int),
                    before.subrange(at as int, before.len() as int),
                );
                assert(out@.to_multiset() =~= before.to_multiset().insert(id));
                assert forall|a: int, b: int| 0 <= a <= b < out@.len() implies out@[a]
                    <= out@[b] by {
                    let p = if a < at {
                        a
                    } else {
                        a - 1
                    };
                    let q = if b < at {
                        b
                    } else {
                        b - 1
                    };
                    if a != at && b != at {
                        assert(before[p] <= before[q]);
                    } else if a == at && b != at {
                        assert(before[q] > id);
                    } else if b == at && a != at {
                        assert(before[p] <= before[at - 1]);
                    }
                }
            }
        }
        i = i + 1;
    }
    assert(members@.subrange(0, members@.len() as int) =~= members@);
    out
}

/// The members in ascending order.
fn sorted_members(members: &Vec<MemberSummary>) -> (r: Vec<RaftMember>)
    ensures
        wire_seats(r@) == seats::settled(seats::seats_of(members@)),
{
    let entries = seats::settle(seats::all_seats(members));
    let mut out: Vec<RaftMember> = Vec::new();
    let mut i: usize = 0;
    while i < entries.len()
        invariant
            i <= entries@.len(),
            wire_seats(out@) =~= seats::entries(entries@).subrange(0, i as int),
        decreases entries@.len() - i,
    {
        let m = RaftMember { node_id: entries[i].0, address: entries[i].1.clone() };
        assert(wire_seats(out@.push(m)) =~= wire_seats(out@).push((m.node_id, m.address@)));
        out.push(m);
        i = i + 1;
    }
    assert(wire_seats(out@) =~= seats::entries(entries@));
    out
}

// ---------------------------------------------------------------------------
// The answer
// ---------------------------------------------------------------------------

/// Whether `out` is the progress of each follower, in order.
pub open spec fn progress(out: Seq<ReplicationProgress>, from: Seq<(u64, u64)>) -> bool {
    &&& out.len() == from.len()
    &&& forall|i: int|
        0 <= i < out.len() ==> (#[trigger] out[i]).node_id == from[i].0 && out[i].matched_index
            == from[i].1
}

/// Whether a response states this summary: canonical order, one voter
/// configuration, members ascending.
pub open spec fn states_summary(r: ClusterStatusResponse, s: ClusterSummary) -> bool {
    &&& r.local_node_id == s.local_id
    &&& r.leader_node_id == s.leader
    &&& r.term == s.term
    &&& r.last_applied_index == s.last_applied
    &&& r.known_committed_index == s.known_committed
    &&& progress(r.replication@, s.replication@)
    &&& r.membership matches Some(m) && {
        &&& m.configs@.len() == 1
        &&& ascending(m.configs@[0].voters@)
        &&& m.configs@[0].voters@.to_multiset() == voter_ids(s.members@).to_multiset()
        &&& wire_seats(m.members@) == seats::settled(seats::seats_of(s.members@))
    }
}

/// A membership summary as it goes over the wire. Bindings, custody and health
/// are not raft's to know; they are left empty for the handler to fill.
pub fn cluster_summary_to_pb(summary: &ClusterSummary) -> (r: ClusterStatusResponse)
    ensures
        states_summary(r, *summary),
        r.bindings@.len() == 0,
        r.key_holders@.len() == 0,
        r.pending_key_transfers@.len() == 0,
        r.health is None,
{
    let voters = sorted_voters(&summary.members);
    let members = sorted_members(&summary.members);
    let mut replication: Vec<ReplicationProgress> = Vec::new();
    let mut i: usize = 0;
    while i < summary.replication.len()
        invariant
            i <= summary.replication@.len(),
            replication@.len() == i,
            forall|j: int|
                0 <= j < i ==> (#[trigger] replication@[j]).node_id == summary.replication@[j].0
                    && replication@[j].matched_index == summary.replication@[j].1,
        decreases summary.replication@.len() - i,
    {
        let (node_id, matched_index) = summary.replication[i];
        replication.push(ReplicationProgress { node_id, matched_index });
        i = i + 1;
    }
    let mut configs: Vec<VoterConfig> = Vec::new();
    configs.push(VoterConfig { voters });
    ClusterStatusResponse {
        local_node_id: summary.local_id,
        leader_node_id: summary.leader,
        term: summary.term,
        last_applied_index: summary.last_applied,
        known_committed_index: summary.known_committed,
        membership: Some(Membership { configs, members }),
        replication,
        bindings: Vec::new(),
        key_holders: Vec::new(),
        pending_key_transfers: Vec::new(),
        health: None,
    }
}

/// Whether `out` lists these bindings, in order.
pub open spec fn states_bindings(out: Seq<MachineBinding>, from: Seq<Binding>) -> bool {
    &&& out.len() == from.len()
    &&& forall|i: int|
        0 <= i < out.len() ==> {
            &&& (#[trigger] out[i]).machine_id@ == from[i].machine.label()
            &&& out[i].node_id == from[i].raft_node_id
            &&& out[i].address@ == from[i].address@
            &&& out[i].bound_at_us == from[i].bound_at_us
        }
}

/// The bindings, in the published view's order.
pub fn machine_bindings_to_pb(state: &Replicated) -> (r: Vec<MachineBinding>)
    ensures
        states_bindings(r@, state.bindings@),
{
    let mut out: Vec<MachineBinding> = Vec::new();
    let mut i: usize = 0;
    while i < state.bindings.len()
        invariant
            i <= state.bindings@.len(),
            states_bindings(out@, state.bindings@.subrange(0, i as int)),
        decreases state.bindings@.len() - i,
    {
        let b = &state.bindings[i];
        out.push(
            MachineBinding {
                machine_id: b.machine.text(),
                node_id: b.raft_node_id,
                address: b.address.clone(),
                bound_at_us: b.bound_at_us,
            },
        );
        i = i + 1;
    }
    assert(state.bindings@.subrange(0, state.bindings@.len() as int) =~= state.bindings@);
    out
}

/// Whether `out` lists these holders, in order.
pub open spec fn states_holders(out: Seq<KeyHolder>, from: Seq<(u64, i64)>) -> bool {
    &&& out.len() == from.len()
    &&& forall|i: int|
        0 <= i < out.len() ==> (#[trigger] out[i]) == (KeyHolder {
            node_id: from[i].0,
            confirmed_at_us: from[i].1,
        })
}

/// The confirmed holders of the key. Every one is listed, voter or not: every
/// disk that ever received the key stays root-equivalent.
pub fn key_holders_to_pb(state: &Replicated) -> (r: Vec<KeyHolder>)
    ensures
        states_holders(r@, state.key_confirmations@),
{
    let mut out: Vec<KeyHolder> = Vec::new();
    let mut i: usize = 0;
    while i < state.key_confirmations.len()
        invariant
            i <= state.key_confirmations@.len(),
            states_holders(out@, state.key_confirmations@.subrange(0, i as int)),
        decreases state.key_confirmations@.len() - i,
    {
        let (node_id, confirmed_at_us) = state.key_confirmations[i];
        out.push(KeyHolder { node_id, confirmed_at_us });
        i = i + 1;
    }
    assert(state.key_confirmations@.subrange(0, state.key_confirmations@.len() as int)
        =~= state.key_confirmations@);
    out
}

/// Whether `out` lists these intents, in order.
pub open spec fn states_intents(out: Seq<PendingKeyTransfer>, from: Seq<(u64, i64)>) -> bool {
    &&& out.len() == from.len()
    &&& forall|i: int|
        0 <= i < out.len() ==> (#[trigger] out[i]) == (PendingKeyTransfer {
            node_id: from[i].0,
            intended_at_us: from[i].1,
        })
}

/// The unresolved transfers: disks that may hold the key.
pub fn pending_key_transfers_to_pb(state: &Replicated) -> (r: Vec<PendingKeyTransfer>)
    ensures
        states_intents(r@, state.key_transfer_intents@),
{
    let mut out: Vec<PendingKeyTransfer> = Vec::new();
    let mut i: usize = 0;
    while i < state.key_transfer_intents.len()
        invariant
            i <= state.key_transfer_intents@.len(),
            states_intents(out@, state.key_transfer_intents@.subrange(0, i as int)),
        decreases state.key_transfer_intents@.len() - i,
    {
        let (node_id, intended_at_us) = state.key_transfer_intents[i];
        out.push(PendingKeyTransfer { node_id, intended_at_us });
        i = i + 1;
    }
    assert(state.key_transfer_intents@.subrange(0, state.key_transfer_intents@.len() as int)
        =~= state.key_transfer_intents@);
    out
}

/// The redundancy verdict of one daemon. Only a leader has one.
#[derive(Debug, Clone, Copy, PartialEq, Eq, Structural)]
pub enum HealthVerdict {
    Unknown,
    Sustained { live_voters: u64 },
    Degraded { live_voters: u64 },
}

/// The verdict as it goes over the wire: absent when unknown, since unknown
/// health is not health.
pub open spec fn health_of(verdict: HealthVerdict) -> Option<ClusterHealth> {
    match verdict {
        HealthVerdict::Unknown => None,
        HealthVerdict::Sustained { live_voters } => Some(
            ClusterHealth { healthy: true, live_voters },
        ),
        HealthVerdict::Degraded { live_voters } => Some(
            ClusterHealth { healthy: false, live_voters },
        ),
    }
}

impl AdminService {
    /// This coordinator's view of its cluster.
    pub fn cluster_status(&self, caller: &Caller, history: &Vec<u8>, verdict: HealthVerdict) -> (r:
        Result<ClusterStatusResponse, Status>)
        ensures
            match self.barred(Verb::ClusterStatus, *caller, history@) {
                Some(s) => status::refused_as(r, s),
                None => r matches Ok(resp) && {
                    let seam = self.seam->0;
                    &&& states_summary(resp, seam.summary)
                    &&& states_bindings(resp.bindings@, seam.state.bindings@)
                    &&& states_holders(resp.key_holders@, seam.state.key_confirmations@)
                    &&& states_intents(
                        resp.pending_key_transfers@,
                        seam.state.key_transfer_intents@,
                    )
                    &&& resp.health == health_of(verdict)
                },
            },
    {
        let seam: &Seam = match self.gate(Verb::ClusterStatus, caller, history) {
            Ok(seam) => seam,
            Err(e) => return Err(e),
        };
        let base = cluster_summary_to_pb(&seam.summary);
        let health = match verdict {
            HealthVerdict::Unknown => None,
            HealthVerdict::Sustained { live_voters } => Some(
                ClusterHealth { healthy: true, live_voters },
            ),
            HealthVerdict::Degraded { live_voters } => Some(
                ClusterHealth { healthy: false, live_voters },
            ),
        };
        Ok(
            ClusterStatusResponse {
                local_node_id: base.local_node_id,
                leader_node_id: base.leader_node_id,
                term: base.term,
                last_applied_index: base.last_applied_index,
                known_committed_index: base.known_committed_index,
                membership: base.membership,
                replication: base.replication,
                bindings: machine_bindings_to_pb(&seam.state),
                key_holders: key_holders_to_pb(&seam.state),
                pending_key_transfers: pending_key_transfers_to_pb(&seam.state),
                health,
            },
        )
    }

    /// What this daemon is, asked before any cluster is formed too: the one
    /// verb that neither needs a formed cluster nor a matching history.
    pub fn probe_cluster(&self, caller: &Caller, at: &PhaseState) -> (r: Result<
        ProbeClusterResponse,
        Status,
    >)
        ensures
            if authz::granted(Verb::ProbeCluster, *caller) {
                r matches Ok(answer) && phase::states_probe(answer, *at)
            } else {
                status::refused_as(r, authz::denial(Verb::ProbeCluster.spelled(), *caller))
            },
    {
        match authz::authorize(Verb::ProbeCluster, caller) {
            Err(e) => Err(e),
            Ok(_) => Ok(at.probe()),
        }
    }
}

// ---------------------------------------------------------------------------
// What the answer holds
// ---------------------------------------------------------------------------

proof fn voter_ids_are_the_voters(members: Seq<MemberSummary>, node: u64)
    ensures
        voter_ids(members).contains(node) <==> exists|i: int|
            0 <= i < members.len() && (#[trigger] members[i]).voter && members[i].id == node,
    decreases members.len(),
{
    if members.len() > 0 {
        let rest = members.drop_last();
        let last = members.last();
        voter_ids_are_the_voters(rest, node);
        let before = voter_ids(rest);
        if exists|i: int| 0 <= i < rest.len() && (#[trigger] rest[i]).voter && rest[i].id == node {
            let i = choose|i: int|
                0 <= i < rest.len() && (#[trigger] rest[i]).voter && rest[i].id == node;
            assert(members[i].voter && members[i].id == node);
            let k = choose|k: int| 0 <= k < before.len() && before[k] == node;
            if last.voter {
                assert(before.push(last.id)[k] == node);
            }
        }
        if last.voter && last.id == node {
            assert(members[members.len() - 1].voter && members[members.len() - 1].id == node);
            assert(before.push(node)[before.len() as int] == node);
        }
        if exists|i: int|
            0 <= i < members.len() && (#[trigger] members[i]).voter && members[i].id == node {
            let i = choose|i: int|
                0 <= i < members.len() && (#[trigger] members[i]).voter && members[i].id == node;
            if i < rest.len() {
                assert(rest[i] == members[i]);
            }
        }
        if voter_ids(members).contains(node) && !(last.voter && last.id == node) {
            let k = choose|k: int|
                0 <= k < voter_ids(members).len() && voter_ids(members)[k] == node;
            assert(before[k] == node);
        }
    }
}

/// On the wire a node votes exactly when membership says it votes.
pub proof fn the_wire_names_the_voters(summary: ClusterSummary, node: u64, r: ClusterStatusResponse)
    requires
        call_ensures(cluster_summary_to_pb, (&summary,), r),
    ensures
        r.membership is Some,
        r.membership->0.configs@.len() == 1,
        r.membership->0.configs@[0].voters@.contains(node) <==> exists|i: int|
            0 <= i < summary.members@.len() && (#[trigger] summary.members@[i]).voter
                && summary.members@[i].id == node,
        forall|i: int, j: int|
            0 <= i <= j < r.membership->0.configs@[0].voters@.len()
                ==> r.membership->0.configs@[0].voters@[i]
                <= r.membership->0.configs@[0].voters@[j],
{
    broadcast use vstd::seq_lib::group_to_multiset_ensures;

    voter_ids_are_the_voters(summary.members@, node);
    let voters = r.membership->0.configs@[0].voters@;
    let ids = voter_ids(summary.members@);
    assert(voters.contains(node) <==> voters.to_multiset().count(node) > 0);
    assert(ids.contains(node) <==> ids.to_multiset().count(node) > 0);
}

/// The raft half of the answer is the summary's, number by number, and each
/// follower's progress stands in its row.
pub proof fn the_answer_carries_the_summary(
    summary: ClusterSummary,
    at: int,
    r: ClusterStatusResponse,
)
    requires
        call_ensures(cluster_summary_to_pb, (&summary,), r),
    ensures
        r.local_node_id == summary.local_id,
        r.leader_node_id == summary.leader,
        r.term == summary.term,
        r.last_applied_index == summary.last_applied,
        r.known_committed_index == summary.known_committed,
        r.replication@.len() == summary.replication@.len(),
        0 <= at < r.replication@.len() ==> r.replication@[at].node_id == summary.replication@[at].0
            && r.replication@[at].matched_index == summary.replication@[at].1,
        r.health is None,
{
}

/// Bindings, confirmations and intents are listed one for one, in order and
/// unchanged.
pub proof fn records_are_listed_one_for_one(
    state: Replicated,
    at: int,
    bound: Vec<MachineBinding>,
    held: Vec<KeyHolder>,
    meant: Vec<PendingKeyTransfer>,
)
    requires
        call_ensures(machine_bindings_to_pb, (&state,), bound),
        call_ensures(key_holders_to_pb, (&state,), held),
        call_ensures(pending_key_transfers_to_pb, (&state,), meant),
    ensures
        bound@.len() == state.bindings@.len(),
        0 <= at < bound@.len() ==> bound@[at].machine_id@ == state.bindings@[at].machine.label()
            && bound@[at].node_id == state.bindings@[at].raft_node_id && bound@[at].address@
            == state.bindings@[at].address@ && bound@[at].bound_at_us
            == state.bindings@[at].bound_at_us,
        held@.len() == state.key_confirmations@.len(),
        0 <= at < held@.len() ==> held@[at].node_id == state.key_confirmations@[at].0
            && held@[at].confirmed_at_us == state.key_confirmations@[at].1,
        meant@.len() == state.key_transfer_intents@.len(),
        0 <= at < meant@.len() ==> meant@[at].node_id == state.key_transfer_intents@[at].0
            && meant@[at].intended_at_us == state.key_transfer_intents@[at].1,
{
}

/// Status is answered to operators and machines of this history, with the
/// records of the published view and with a verdict exactly where there is
/// one: sustained is healthy, degraded is not, unknown is neither.
pub proof fn a_verdict_is_shown_as_reached(
    service: AdminService,
    seam: Seam,
    caller: Caller,
    history: Vec<u8>,
    verdict: HealthVerdict,
    r: Result<ClusterStatusResponse, Status>,
)
    requires
        call_ensures(AdminService::cluster_status, (&service, &caller, &history, verdict), r),
        service.seam == Some(seam),
    ensures
        r is Ok <==> !(caller is Agent) && history@ == seam.history_id@ && history@.len() == 16,
        r is Ok ==> (r->Ok_0.health is None <==> verdict == HealthVerdict::Unknown),
        r is Ok ==> (verdict matches HealthVerdict::Sustained { live_voters } ==> r->Ok_0.health
            == Some((ClusterHealth { healthy: true, live_voters }))),
        r is Ok ==> (verdict matches HealthVerdict::Degraded { live_voters } ==> r->Ok_0.health
            == Some((ClusterHealth { healthy: false, live_voters }))),
        r matches Ok(resp) ==> resp.bindings@.len() == seam.state.bindings@.len()
            && resp.key_holders@.len() == seam.state.key_confirmations@.len()
            && resp.pending_key_transfers@.len() == seam.state.key_transfer_intents@.len()
            && resp.local_node_id == seam.summary.local_id && resp.leader_node_id
            == seam.summary.leader,
{
}

/// The probe is answered to whoever holds a verified certificate of the
/// machine plane, formed or not and whatever the history.
pub proof fn a_probe_needs_no_cluster(
    service: AdminService,
    caller: Caller,
    at: PhaseState,
    r: Result<ProbeClusterResponse, Status>,
)
    requires
        call_ensures(AdminService::probe_cluster, (&service, &caller, &at), r),
    ensures
        r is Ok <==> !(caller is Agent),
        r matches Ok(answer) ==> phase::states_probe(answer, at),
{
}

} // verus!
