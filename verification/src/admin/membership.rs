//! The membership verbs, each as the steps it takes in order.
//!
//! A step names what the driver does next; the answer goes back into the next
//! function. A reply ends the verb.

use vstd::prelude::*;
use vstd::string::*;

use crate::admin::authz;
use crate::admin::authz::{AdminService, Binding, Caller, Seam, Verb};
use crate::admin::endpoint;
use crate::admin::endpoint::{bind_machine, Applied, EndpointProbe, ServingLeaf};
use crate::admin::refusals;
use crate::admin::refusals::consensus_error_to_status;
use crate::cluster::{ClusterSummary, ConsensusError, MachineId};
use crate::status;
use crate::status::{Code, Status, StatusView, NOT_AUTHORIZED, UNKNOWN_NODE};
use crate::text;
use crate::text::decimal_text;

verus! {

/// The reply a consensus call makes of its outcome.
pub fn reply_of(outcome: Result<(), ConsensusError>) -> (r: Result<(), Status>)
    ensures
        match outcome {
            Ok(_) => r is Ok,
            Err(e) => status::refused_as(r, refusals::consensus_refusal(e)),
        },
{
    match outcome {
        Ok(_) => Ok(()),
        Err(e) => Err(consensus_error_to_status(&e)),
    }
}

// ---------------------------------------------------------------------------
// AddLearner: verify, bind, admit
// ---------------------------------------------------------------------------

/// A request to admit a learner.
#[derive(Debug, Clone)]
pub struct AddLearnerRequest {
    pub history_id: Vec<u8>,
    pub node_id: u64,
    pub address: String,
}

/// What an admission does next.
#[derive(Debug)]
pub enum AdmissionStep {
    /// The verb is over.
    Reply(Result<(), Status>),
    /// Read the certificate served at the advertised address.
    ReadServingLeaf { address: String },
    /// Probe the advertised address; `machine` is who serves there.
    ProbeEndpoint { machine: MachineId, address: String },
    /// Propose the binding of `machine` to the seat, at its address.
    Bind { machine: MachineId, node_id: u64, address: String },
    /// Wait until the published view holds this log index.
    AwaitVisible(u64),
    /// Commit the admission of this node at its address.
    Admit { node_id: u64, address: String },
}

impl AdmissionStep {
    /// Whether this step commits the admission that was asked for.
    pub open spec fn admits(self, req: AddLearnerRequest) -> bool {
        self matches AdmissionStep::Admit { node_id, address } && node_id == req.node_id && address@
            == req.address@
    }
}

/// Whether the member is seated at exactly this address.
pub open spec fn seated_at(summary: ClusterSummary, node: u64, address: Seq<char>) -> bool {
    summary.seats(node) && summary.members@[summary.seat_of(node)].addr@ == address
}

/// Whether some binding names exactly this seat and address.
pub open spec fn bound_at(bindings: Seq<Binding>, node: u64, address: Seq<char>) -> bool {
    exists|i: int|
        0 <= i < bindings.len() && (#[trigger] bindings[i]).raft_node_id == node
            && bindings[i].address@ == address
}

/// Whether the identity behind an admission is settled: a machine's own
/// binding names the seat; for an operator, who presents no identity to
/// compare, the seat carries some binding at exactly this address.
pub open spec fn identity_settled(seam: Seam, caller: Caller, node: u64, address: Seq<char>) -> bool {
    match caller {
        Caller::Operator { .. } => bound_at(seam.state.bindings@, node, address),
        Caller::Machine(machine) => seam.state.bound_seat(machine) == Some(node),
        Caller::Agent(_) => false,
    }
}

/// Whether the request replays an admission that is wholly done.
pub open spec fn replays(seam: Seam, caller: Caller, node: u64, address: Seq<char>) -> bool {
    seated_at(seam.summary, node, address) && identity_settled(seam, caller, node, address)
}

/// Whether this replica verifies and binds before it admits: only the leader
/// does, and not for a seat that is at another address, which the commit
/// refuses for good.
pub open spec fn verifies(seam: Seam, node: u64, address: Seq<char>) -> bool {
    seam.summary.leads() && (seam.summary.seats(node) ==> seated_at(seam.summary, node, address))
}

fn some_binding_at(bindings: &Vec<Binding>, node: u64, address: &str) -> (r: bool)
    ensures
        r == bound_at(bindings@, node, address@),
{
    let mut i: usize = 0;
    while i < bindings.len()
        invariant
            i <= bindings@.len(),
            forall|j: int|
                0 <= j < i ==> !((#[trigger] bindings@[j]).raft_node_id == node
                    && bindings@[j].address@ == address@),
        decreases bindings@.len() - i,
    {
        if bindings[i].raft_node_id == node && text::same(bindings[i].address.as_str(), address) {
            return true;
        }
        i = i + 1;
    }
    false
}

impl AdminService {
    /// Begin an admission.
    ///
    /// An exact replay is a plain success before anything is dialled: the work
    /// it asks for is done, so there is nothing left to verify. On the leader
    /// everything else is verified first. On a follower, and for a seat at
    /// another address, the commit itself gives the right refusal.
    pub fn add_learner(&self, caller: &Caller, req: &AddLearnerRequest) -> (r: AdmissionStep)
        ensures
            match self.barred(Verb::AddLearner, *caller, req.history_id@) {
                Some(s) => r matches AdmissionStep::Reply(reply) && status::refused_as(reply, s),
                None => {
                    let seam = self.seam->0;
                    if replays(seam, *caller, req.node_id, req.address@) {
                        r matches AdmissionStep::Reply(reply) && reply is Ok
                    } else if verifies(seam, req.node_id, req.address@) {
                        r matches AdmissionStep::ReadServingLeaf { address } && address@
                            == req.address@
                    } else {
                        r.admits(*req)
                    }
                },
            },
    {
        let seam = match self.gate(Verb::AddLearner, caller, &req.history_id) {
            Ok(seam) => seam,
            Err(e) => return AdmissionStep::Reply(Err(e)),
        };
        let seat = seam.summary.find(req.node_id);
        let already = match seat {
            Some(at) => text::same(seam.summary.members[at].addr.as_str(), req.address.as_str()),
            None => false,
        };
        if already {
            let settled = match caller {
                Caller::Operator { .. } => some_binding_at(
                    &seam.state.bindings,
                    req.node_id,
                    req.address.as_str(),
                ),
                Caller::Machine(machine) => match seam.state.seat_of_machine(*machine) {
                    Some(node) => node == req.node_id,
                    None => false,
                },
                Caller::Agent(_) => false,
            };
            if settled {
                return AdmissionStep::Reply(Ok(()));
            }
        }
        if seam.summary.is_leader() && (already || seat.is_none()) {
            AdmissionStep::ReadServingLeaf { address: req.address.clone() }
        } else {
            AdmissionStep::Admit { node_id: req.node_id, address: req.address.clone() }
        }
    }
}

/// The identity a caller claims for the endpoint: a machine its own, anyone
/// else none.
pub open spec fn claim_of(caller: Caller) -> Option<MachineId> {
    match caller {
        Caller::Machine(machine) => Some(machine),
        _ => None,
    }
}

/// The certificate at the advertised address was read, or not. It must be a
/// coordinator's, and a machine must find exactly itself there.
pub fn on_serving_leaf(
    caller: &Caller,
    req: &AddLearnerRequest,
    read: Result<ServingLeaf, String>,
) -> (r: AdmissionStep)
    ensures
        match endpoint::leaf_complaint(req.address@, read) {
            Some(s) => r matches AdmissionStep::Reply(reply) && status::refused_as(reply, s),
            None => {
                let served = read->Ok_0.machine->0;
                if claim_of(*caller) is Some && claim_of(*caller)->0 != served {
                    r matches AdmissionStep::Reply(reply) && status::refused_as(
                        reply,
                        endpoint::wrong_machine(req.address@, served, claim_of(*caller)->0),
                    )
                } else {
                    r matches AdmissionStep::ProbeEndpoint { machine, address } && machine == served
                        && address@ == req.address@
                }
            },
        },
{
    let claimed = match caller {
        Caller::Machine(machine) => Some(*machine),
        _ => None,
    };
    match endpoint::serving_machine(req.address.as_str(), read) {
        Err(e) => AdmissionStep::Reply(Err(e)),
        Ok(served) => match endpoint::claimed_machine(req.address.as_str(), served, claimed) {
            Err(e) => AdmissionStep::Reply(Err(e)),
            Ok(machine) => AdmissionStep::ProbeEndpoint { machine, address: req.address.clone() },
        },
    }
}

/// The advertised address was probed. It must report the claimed node; then
/// the machine found there is bound.
pub fn on_endpoint_probe(req: &AddLearnerRequest, machine: MachineId, probe: &EndpointProbe) -> (r:
    AdmissionStep)
    ensures
        match endpoint::probe_complaint(req.address@, req.node_id, *probe) {
            Some(s) => r matches AdmissionStep::Reply(reply) && status::refused_as(reply, s),
            None => r matches AdmissionStep::Bind { machine: m, node_id, address } && m == machine
                && node_id == req.node_id && address@ == req.address@,
        },
{
    match endpoint::probe_endpoint_node(req.address.as_str(), req.node_id, probe) {
        Err(e) => AdmissionStep::Reply(Err(e)),
        Ok(_) => AdmissionStep::Bind {
            machine,
            node_id: req.node_id,
            address: req.address.clone(),
        },
    }
}

/// The binding was proposed. It must have been applied, and it must be visible
/// before the admission commits.
pub fn on_bound(
    req: &AddLearnerRequest,
    machine: MachineId,
    applied: Result<Applied, ConsensusError>,
) -> (r: AdmissionStep)
    ensures
        match endpoint::bind_complaint(machine, req.node_id, applied) {
            Some(s) => r matches AdmissionStep::Reply(reply) && status::refused_as(reply, s),
            None => applied matches Ok(Applied::At(i)) && r == AdmissionStep::AwaitVisible(i),
        },
{
    match bind_machine(machine, req.node_id, applied) {
        Err(e) => AdmissionStep::Reply(Err(e)),
        Ok(index) => AdmissionStep::AwaitVisible(index),
    }
}

/// The published view holds the binding, or the wait failed.
pub fn on_binding_visible(req: &AddLearnerRequest, visible: Result<(), ConsensusError>) -> (r:
    AdmissionStep)
    ensures
        match visible {
            Ok(_) => r.admits(*req),
            Err(e) => r matches AdmissionStep::Reply(reply) && status::refused_as(
                reply,
                refusals::consensus_refusal(e),
            ),
        },
{
    match reply_of(visible) {
        Ok(_) => AdmissionStep::Admit { node_id: req.node_id, address: req.address.clone() },
        Err(e) => AdmissionStep::Reply(Err(e)),
    }
}

/// Admission creates the binding: on the leader nothing is committed for a
/// seat that is not yet wholly admitted until its endpoint was verified, and
/// a request that repoints a seat is never verified at all.
pub proof fn admission_verifies_first(
    service: AdminService,
    caller: Caller,
    req: AddLearnerRequest,
)
    requires
        service.barred(Verb::AddLearner, caller, req.history_id@) is None,
        service.seam->0.summary.leads(),
        !service.seam->0.summary.seats(req.node_id) || seated_at(
            service.seam->0.summary,
            req.node_id,
            req.address@,
        ),
    ensures
        service.seam is Some,
        verifies(service.seam->0, req.node_id, req.address@),
{
}

/// An exact replay needs no reachable endpoint: a machine whose seat and
/// binding are both in place is answered without a dial, leader or not.
pub proof fn replays_are_settled(service: AdminService, machine: MachineId, req: AddLearnerRequest)
    requires
        service.barred(Verb::AddLearner, Caller::Machine(machine), req.history_id@) is None,
        seated_at(service.seam->0.summary, req.node_id, req.address@),
        service.seam->0.state.bound_seat(machine) == Some(req.node_id),
    ensures
        replays(service.seam->0, Caller::Machine(machine), req.node_id, req.address@),
{
}

// ---------------------------------------------------------------------------
// PromoteVoter and ReplaceVoter: plan, key, commit
// ---------------------------------------------------------------------------

/// A joint change of the voter set.
#[derive(Debug, Clone, Copy, PartialEq, Eq, Structural)]
pub enum Change {
    /// Promote a learner, folding out one voter if the plan names one.
    Promote { node: u64, fold_out: Option<u64> },
    /// Replace one voter with another.
    Replace { old: u64, new: u64 },
}

/// What a promotion or a replacement does next.
#[derive(Debug)]
pub enum ChangeStep {
    /// The verb is over.
    Reply(Result<(), Status>),
    /// Ask the seam whether this promotion is admissible.
    PlanPromotion { node: u64 },
    /// Ask the seam whether this replacement is admissible.
    PlanReplacement { old: u64, new: u64 },
    /// Put the cluster key on the candidate's disk and have it confirmed; then
    /// comes this change.
    EnsureKey { candidate: u64, change: Change },
    /// Commit the joint change.
    Commit(Change),
}

/// What the seam makes of a promotion.
#[derive(Debug, Clone, Copy, PartialEq, Eq, Structural)]
pub enum PromotionPlan {
    AlreadyVoter,
    Ready { evidence_removal: Option<u64> },
}

/// What the seam makes of a replacement.
#[derive(Debug, Clone, Copy, PartialEq, Eq, Structural)]
pub enum ReplacementPlan {
    Settled,
    Ready,
}

/// The refusal of a machine that names another seat than its own, or that has
/// none; nothing for an operator.
pub open spec fn scope_refusal(seam: Seam, caller: Caller, node: u64) -> Option<StatusView> {
    match caller {
        Caller::Machine(machine) => match seam.state.bound_seat(machine) {
            Some(bound) => if bound == node {
                None
            } else {
                Some(
                    status::refusal(
                        Code::PermissionDenied,
                        NOT_AUTHORIZED@ + ": "@ + caller.described() + " is bound to node "@
                            + text::decimal(bound as nat)
                            + " and may promote only that seat, not node "@ + text::decimal(
                            node as nat,
                        ) + " (ADR 0037 §7)"@,
                    ),
                )
            },
            None => Some(
                status::refusal(
                    Code::PermissionDenied,
                    NOT_AUTHORIZED@ + ": "@ + caller.described()
                        + " holds no machine-identity binding, so it has no seat to promote — "@
                        + "admission binds the seat (ADR 0037 §7)"@,
                ),
            ),
        },
        _ => None,
    }
}

impl AdminService {
    /// Begin a promotion. A machine may promote exactly the seat it is bound
    /// to; an operator any.
    pub fn promote_voter(&self, caller: &Caller, history: &Vec<u8>, node: u64) -> (r: ChangeStep)
        ensures
            match self.barred(Verb::PromoteVoter, *caller, history@) {
                Some(s) => r matches ChangeStep::Reply(reply) && status::refused_as(reply, s),
                None => match scope_refusal(self.seam->0, *caller, node) {
                    Some(s) => r matches ChangeStep::Reply(reply) && status::refused_as(reply, s),
                    None => r == (ChangeStep::PlanPromotion { node }),
                },
            },
    {
        let seam = match self.gate(Verb::PromoteVoter, caller, history) {
            Ok(seam) => seam,
            Err(e) => return ChangeStep::Reply(Err(e)),
        };
        if let Caller::Machine(machine) = caller {
            match seam.state.seat_of_machine(*machine) {
                Some(bound) => {
                    if bound != node {
                        return ChangeStep::Reply(
                            Err(
                                Status::permission_denied(
                                    NOT_AUTHORIZED.to_owned().concat(": ").concat(
                                        caller.describe().as_str(),
                                    ).concat(" is bound to node ").concat(
                                        decimal_text(bound).as_str(),
                                    ).concat(" and may promote only that seat, not node ").concat(
                                        decimal_text(node).as_str(),
                                    ).concat(" (ADR 0037 §7)"),
                                ),
                            ),
                        );
                    }
                },
                None => return ChangeStep::Reply(
                    Err(
                        Status::permission_denied(
                            NOT_AUTHORIZED.to_owned().concat(": ").concat(
                                caller.describe().as_str(),
                            ).concat(
                                " holds no machine-identity binding, so it has no seat to promote — ",
                            ).concat("admission binds the seat (ADR 0037 §7)"),
                        ),
                    ),
                ),
            }
        }
        ChangeStep::PlanPromotion { node }
    }

    /// Begin a replacement. Operators only: it removes a voter.
    pub fn replace_voter(&self, caller: &Caller, history: &Vec<u8>, old: u64, new: u64) -> (r:
        ChangeStep)
        ensures
            match self.barred(Verb::ReplaceVoter, *caller, history@) {
                Some(s) => r matches ChangeStep::Reply(reply) && status::refused_as(reply, s),
                None => r == (ChangeStep::PlanReplacement { old, new }),
            },
    {
        match self.gate(Verb::ReplaceVoter, caller, history) {
            Ok(_) => ChangeStep::PlanReplacement { old, new },
            Err(e) => ChangeStep::Reply(Err(e)),
        }
    }

    /// Begin a removal. Operators only: it can shrink a quorum. The removal of
    /// the node that comes back is committed right away; nothing bars it.
    pub fn remove_node(&self, caller: &Caller, history: &Vec<u8>, node: u64) -> (r: Result<
        u64,
        Status,
    >)
        ensures
            match self.barred(Verb::RemoveNode, *caller, history@) {
                Some(s) => r matches Err(e) && e@ == s,
                None => r == Ok::<u64, Status>(node),
            },
    {
        match self.gate(Verb::RemoveNode, caller, history) {
            Ok(_) => Ok(node),
            Err(e) => Err(e),
        }
    }
}

/// The seam judged a promotion. A node that already votes needs nothing more,
/// and no key: it was keyed before it was ever promoted. What is committed in
/// the end folds out the voter that the plan names, and no other.
pub fn on_promotion_plan(node: u64, plan: &Result<PromotionPlan, ConsensusError>) -> (r: ChangeStep)
    ensures
        match *plan {
            Err(e) => r matches ChangeStep::Reply(reply) && status::refused_as(
                reply,
                refusals::consensus_refusal(e),
            ),
            Ok(PromotionPlan::AlreadyVoter) => r matches ChangeStep::Reply(reply) && reply is Ok,
            Ok(PromotionPlan::Ready { evidence_removal }) => r == (ChangeStep::EnsureKey {
                candidate: node,
                change: Change::Promote { node, fold_out: evidence_removal },
            }),
        },
{
    match plan {
        Err(e) => ChangeStep::Reply(Err(consensus_error_to_status(e))),
        Ok(PromotionPlan::AlreadyVoter) => ChangeStep::Reply(Ok(())),
        Ok(PromotionPlan::Ready { evidence_removal }) => ChangeStep::EnsureKey {
            candidate: node,
            change: Change::Promote { node, fold_out: *evidence_removal },
        },
    }
}

/// The seam judged a replacement. A change that is already the shape asked for
/// needs nothing more. It is the incoming voter that is keyed.
pub fn on_replacement_plan(
    old: u64,
    new: u64,
    plan: &Result<ReplacementPlan, ConsensusError>,
) -> (r: ChangeStep)
    ensures
        match *plan {
            Err(e) => r matches ChangeStep::Reply(reply) && status::refused_as(
                reply,
                refusals::consensus_refusal(e),
            ),
            Ok(ReplacementPlan::Settled) => r matches ChangeStep::Reply(reply) && reply is Ok,
            Ok(ReplacementPlan::Ready) => r == (ChangeStep::EnsureKey {
                candidate: new,
                change: Change::Replace { old, new },
            }),
        },
{
    match plan {
        Err(e) => ChangeStep::Reply(Err(consensus_error_to_status(e))),
        Ok(ReplacementPlan::Settled) => ChangeStep::Reply(Ok(())),
        Ok(ReplacementPlan::Ready) => ChangeStep::EnsureKey {
            candidate: new,
            change: Change::Replace { old, new },
        },
    }
}

/// The candidate was keyed, or not: the joint change commits only after its
/// durable receipt was confirmed.
pub fn on_keyed(keyed: Result<(), Status>, change: Change) -> (r: ChangeStep)
    ensures
        match keyed {
            Ok(_) => r == ChangeStep::Commit(change),
            Err(e) => r matches ChangeStep::Reply(reply) && status::refused_as(reply, e@),
        },
{
    match keyed {
        Ok(_) => ChangeStep::Commit(change),
        Err(e) => ChangeStep::Reply(Err(e)),
    }
}

// ---------------------------------------------------------------------------
// SetNodeAddress
// ---------------------------------------------------------------------------

/// A request to repoint a member.
#[derive(Debug, Clone)]
pub struct SetNodeAddressRequest {
    pub history_id: Vec<u8>,
    pub node_id: u64,
    pub address: String,
}

/// What a repointing does next.
#[derive(Debug)]
pub enum RepointStep {
    /// The verb is over.
    Reply(Result<(), Status>),
    /// Verify the new address against this machine, which the seat is bound
    /// to.
    Verify { machine: MachineId, address: String },
    /// Commit the membership change: this node is dialled at this address.
    Commit { node_id: u64, address: String },
    /// Propose that the seat's machine binding follow to this address.
    Rebind { node_id: u64, address: String },
    /// Wait until the published view holds this log index.
    AwaitVisible(u64),
}

impl RepointStep {
    /// Whether this step commits the repointing that was asked for.
    pub open spec fn commits(self, req: SetNodeAddressRequest) -> bool {
        self matches RepointStep::Commit { node_id, address } && node_id == req.node_id && address@
            == req.address@
    }
}

/// The refusal of a node that is not in membership.
pub open spec fn unseated_refusal(node: u64) -> StatusView {
    status::refusal(
        Code::NotFound,
        UNKNOWN_NODE@ + ": node "@ + text::decimal(node as nat)
            + " is not in membership; set-address repoints an existing member, "@
            + "it never creates one (ADR 0037 §6)"@,
    )
}

/// The refusal of a seat nothing is bound to.
pub open spec fn unbound_refusal(node: u64) -> StatusView {
    status::refusal(
        Code::FailedPrecondition,
        "node "@ + text::decimal(node as nat)
            + " carries no machine-identity binding, so there is nothing to "@
            + "verify the new endpoint against (ADR 0037 §7)"@,
    )
}

/// Whether both facts a repointing changes already hold: the membership
/// address, and the address of the seat's binding when it has one.
pub open spec fn repointed(seam: Seam, node: u64, address: Seq<char>) -> bool {
    &&& seated_at(seam.summary, node, address)
    &&& seam.state.seat_binding(node) matches Some(b) ==> b.address@ == address
}

impl AdminService {
    /// Begin a repointing. Operators only.
    ///
    /// Done is done only when both facts hold: a crash between the two commits
    /// leaves membership repointed and the binding stale, and running the verb
    /// again is what repairs it. On the leader the new address is verified
    /// against the machine the cluster already knows the seat to be.
    pub fn set_node_address(&self, caller: &Caller, req: &SetNodeAddressRequest) -> (r: RepointStep)
        ensures
            match self.barred(Verb::SetNodeAddress, *caller, req.history_id@) {
                Some(s) => r matches RepointStep::Reply(reply) && status::refused_as(reply, s),
                None => {
                    let seam = self.seam->0;
                    if repointed(seam, req.node_id, req.address@) {
                        r matches RepointStep::Reply(reply) && reply is Ok
                    } else if !seam.summary.seats(req.node_id) {
                        r matches RepointStep::Reply(reply) && status::refused_as(
                            reply,
                            unseated_refusal(req.node_id),
                        )
                    } else if !seam.summary.leads() {
                        r.commits(*req)
                    } else {
                        match seam.state.seat_binding(req.node_id) {
                            Some(b) => r matches RepointStep::Verify { machine, address } && machine
                                == b.machine && address@ == req.address@,
                            None => r matches RepointStep::Reply(reply) && status::refused_as(
                                reply,
                                unbound_refusal(req.node_id),
                            ),
                        }
                    }
                },
            },
    {
        let seam = match self.gate(Verb::SetNodeAddress, caller, &req.history_id) {
            Ok(seam) => seam,
            Err(e) => return RepointStep::Reply(Err(e)),
        };
        let binding = seam.state.find_seat(req.node_id);
        match seam.summary.find(req.node_id) {
            Some(at) => {
                if text::same(seam.summary.members[at].addr.as_str(), req.address.as_str()) {
                    let settled = match binding {
                        Some(b) => text::same(
                            seam.state.bindings[b].address.as_str(),
                            req.address.as_str(),
                        ),
                        None => true,
                    };
                    if settled {
                        return RepointStep::Reply(Ok(()));
                    }
                }
            },
            None => return RepointStep::Reply(
                Err(
                    Status::not_found(
                        UNKNOWN_NODE.to_owned().concat(": node ").concat(
                            decimal_text(req.node_id).as_str(),
                        ).concat(
                            " is not in membership; set-address repoints an existing member, ",
                        ).concat("it never creates one (ADR 0037 §6)"),
                    ),
                ),
            ),
        }
        if !seam.summary.is_leader() {
            return RepointStep::Commit { node_id: req.node_id, address: req.address.clone() };
        }
        match binding {
            Some(b) => RepointStep::Verify {
                machine: seam.state.bindings[b].machine,
                address: req.address.clone(),
            },
            None => RepointStep::Reply(
                Err(
                    Status::failed_precondition(
                        "node ".to_owned().concat(decimal_text(req.node_id).as_str()).concat(
                            " carries no machine-identity binding, so there is nothing to ",
                        ).concat("verify the new endpoint against (ADR 0037 §7)"),
                    ),
                ),
            ),
        }
    }
}

/// The new endpoint was verified against the seat's machine: its certificate,
/// then its probe.
pub fn on_repoint_verified(
    req: &SetNodeAddressRequest,
    machine: MachineId,
    read: Result<ServingLeaf, String>,
    probe: &EndpointProbe,
) -> (r: RepointStep)
    ensures
        match endpoint::leaf_complaint(req.address@, read) {
            Some(s) => r matches RepointStep::Reply(reply) && status::refused_as(reply, s),
            None => {
                let served = read->Ok_0.machine->0;
                if served != machine {
                    r matches RepointStep::Reply(reply) && status::refused_as(
                        reply,
                        endpoint::wrong_machine(req.address@, served, machine),
                    )
                } else {
                    match endpoint::probe_complaint(req.address@, req.node_id, *probe) {
                        Some(s) => r matches RepointStep::Reply(reply) && status::refused_as(
                            reply,
                            s,
                        ),
                        None => r.commits(*req),
                    }
                }
            },
        },
{
    let addr = req.address.as_str();
    match endpoint::serving_machine(addr, read) {
        Err(e) => RepointStep::Reply(Err(e)),
        Ok(served) => match endpoint::claimed_machine(addr, served, Some(machine)) {
            Err(e) => RepointStep::Reply(Err(e)),
            Ok(_) => match endpoint::probe_endpoint_node(addr, req.node_id, probe) {
                Err(e) => RepointStep::Reply(Err(e)),
                Ok(_) => RepointStep::Commit {
                    node_id: req.node_id,
                    address: req.address.clone(),
                },
            },
        },
    }
}

/// The membership change committed, or not. The binding follows when the seat
/// has one, or the moved daemon would be refused for good at its next
/// admission.
pub fn on_repointed(seam: &Seam, req: &SetNodeAddressRequest, done: Result<(), ConsensusError>) -> (r:
    RepointStep)
    ensures
        match done {
            Err(e) => r matches RepointStep::Reply(reply) && status::refused_as(
                reply,
                refusals::consensus_refusal(e),
            ),
            Ok(_) => if seam.state.seat_binding(req.node_id) is Some {
                r matches RepointStep::Rebind { node_id, address } && node_id == req.node_id && address@
                    == req.address@
            } else {
                r matches RepointStep::Reply(reply) && reply is Ok
            },
        },
{
    match reply_of(done) {
        Err(e) => RepointStep::Reply(Err(e)),
        Ok(_) => match seam.state.find_seat(req.node_id) {
            Some(_) => RepointStep::Rebind { node_id: req.node_id, address: req.address.clone() },
            None => RepointStep::Reply(Ok(())),
        },
    }
}

/// The refusal when membership moved and the binding did not.
pub open spec fn half_repointed(node: u64, address: Seq<char>, reason: Seq<char>) -> StatusView {
    status::refusal(
        Code::FailedPrecondition,
        "membership now dials node "@ + text::decimal(node as nat) + " at "@ + address
            + ", but repointing its machine binding was rejected: "@ + reason,
    )
}

/// The binding was proposed to follow.
pub fn on_rebound(req: &SetNodeAddressRequest, applied: Result<Applied, ConsensusError>) -> (r:
    RepointStep)
    ensures
        match applied {
            Err(e) => r matches RepointStep::Reply(reply) && status::refused_as(
                reply,
                refusals::consensus_refusal(e),
            ),
            Ok(Applied::At(i)) => r == RepointStep::AwaitVisible(i),
            Ok(Applied::Rejected { reason, .. }) => r matches RepointStep::Reply(reply)
                && status::refused_as(
                reply,
                half_repointed(req.node_id, req.address@, reason@),
            ),
        },
{
    match applied {
        Err(e) => RepointStep::Reply(Err(consensus_error_to_status(&e))),
        Ok(Applied::At(i)) => RepointStep::AwaitVisible(i),
        Ok(Applied::Rejected { reason, .. }) => RepointStep::Reply(
            Err(
                Status::failed_precondition(
                    "membership now dials node ".to_owned().concat(
                        decimal_text(req.node_id).as_str(),
                    ).concat(" at ").concat(req.address.as_str()).concat(
                        ", but repointing its machine binding was rejected: ",
                    ).concat(reason.as_str()),
                ),
            ),
        ),
    }
}

/// A repointing that stopped between its two commits is not done: running the
/// verb again reaches the leader's verification and the binding.
pub proof fn a_half_repointing_is_not_done(seam: Seam, node: u64, address: Seq<char>)
    requires
        seated_at(seam.summary, node, address),
        seam.state.seat_binding(node) is Some,
        seam.state.seat_binding(node)->0.address@ != address,
    ensures
        !repointed(seam, node, address),
{
}

// ---------------------------------------------------------------------------
// What the verbs answer
// ---------------------------------------------------------------------------

/// A machine promotes exactly the seat it is bound to, whatever the membership
/// says of that seat, voter, learner or absent: its own node goes on to be
/// planned, any other is refused, and so is a machine without a binding. An
/// operator's choice is planned as it stands.
pub proof fn a_machine_promotes_its_own_seat_only(
    service: AdminService,
    seam: Seam,
    caller: Caller,
    history: Vec<u8>,
    node: u64,
    r: ChangeStep,
)
    requires
        call_ensures(AdminService::promote_voter, (&service, &caller, &history, node), r),
        service.seam == Some(seam),
        history@ == seam.history_id@,
        history@.len() == 16,
    ensures
        caller matches Caller::Machine(m) && seam.state.bound_seat(m) == Some(node) ==> r == (
        ChangeStep::PlanPromotion { node }),
        caller matches Caller::Machine(m) && seam.state.bound_seat(m) != Some(node) ==> (
        r matches ChangeStep::Reply(Err(e)) && e@.code == Code::PermissionDenied),
        caller is Operator ==> r == (ChangeStep::PlanPromotion { node }),
        caller is Agent ==> (r matches ChangeStep::Reply(Err(e)) && e@.code
            == Code::PermissionDenied),
{
}

/// The same, over the replicated bindings themselves: where the first binding
/// of a machine names the node, its promotion is planned.
pub proof fn a_bound_machine_is_planned(
    service: AdminService,
    seam: Seam,
    machine: MachineId,
    history: Vec<u8>,
    at: int,
    seat: Option<u64>,
    r: ChangeStep,
)
    requires
        service.seam == Some(seam),
        history@ == seam.history_id@,
        history@.len() == 16,
        0 <= at < seam.state.bindings@.len(),
        seam.state.bindings@[at].machine == machine,
        forall|j: int| 0 <= j < at ==> (#[trigger] seam.state.bindings@[j]).machine != machine,
        call_ensures(authz::Replicated::seat_of_machine, (&seam.state, machine), seat),
        call_ensures(
            AdminService::promote_voter,
            (
                &service,
                &Caller::Machine(machine),
                &history,
                seam.state.bindings@[at].raft_node_id,
            ),
            r,
        ),
    ensures
        r == (ChangeStep::PlanPromotion { node: seam.state.bindings@[at].raft_node_id }),
{
    authz::a_machines_seat_is_its_bindings(seam.state, machine, at, seat);
}

/// Replacing and removing are the operator's alone, and an operator's request
/// under this history is carried out on exactly the nodes it names.
pub proof fn only_an_operator_replaces_or_removes(
    service: AdminService,
    seam: Seam,
    caller: Caller,
    history: Vec<u8>,
    old: u64,
    new: u64,
    swapped: ChangeStep,
    removed: Result<u64, Status>,
)
    requires
        call_ensures(AdminService::replace_voter, (&service, &caller, &history, old, new), swapped),
        call_ensures(AdminService::remove_node, (&service, &caller, &history, old), removed),
        service.seam == Some(seam),
        history@ == seam.history_id@,
        history@.len() == 16,
    ensures
        caller is Operator ==> swapped == (ChangeStep::PlanReplacement { old, new }) && removed
            == Ok::<u64, Status>(old),
        !(caller is Operator) ==> (swapped matches ChangeStep::Reply(Err(e)) && e@.code
            == Code::PermissionDenied) && (removed matches Err(e) && e@.code
            == Code::PermissionDenied),
{
}

/// Nothing of any verb gets past a request of another history.
pub proof fn another_history_changes_nothing(
    service: AdminService,
    seam: Seam,
    caller: Caller,
    history: Vec<u8>,
    node: u64,
    other: u64,
    promoted: ChangeStep,
    swapped: ChangeStep,
    removed: Result<u64, Status>,
)
    requires
        call_ensures(AdminService::promote_voter, (&service, &caller, &history, node), promoted),
        call_ensures(
            AdminService::replace_voter,
            (&service, &caller, &history, node, other),
            swapped,
        ),
        call_ensures(AdminService::remove_node, (&service, &caller, &history, node), removed),
        service.seam == Some(seam),
        history@ != seam.history_id@,
    ensures
        promoted matches ChangeStep::Reply(Err(_)),
        swapped matches ChangeStep::Reply(Err(_)),
        removed is Err,
{
}

/// A change is keyed before it commits, and what commits is what was planned:
/// the node, the voter the plan folds out, the pair that is swapped. Only a
/// ready plan goes on; only a keyed candidate commits.
pub proof fn what_was_planned_is_what_commits(
    node: u64,
    other: u64,
    plan: Result<PromotionPlan, ConsensusError>,
    swap: Result<ReplacementPlan, ConsensusError>,
    keyed: Result<(), Status>,
    change: Change,
    a: ChangeStep,
    b: ChangeStep,
    c: ChangeStep,
)
    requires
        call_ensures(on_promotion_plan, (node, &plan), a),
        call_ensures(on_replacement_plan, (node, other, &swap), b),
        call_ensures(on_keyed, (keyed, change), c),
    ensures
        plan matches Ok(PromotionPlan::Ready { evidence_removal }) ==> a == (
        ChangeStep::EnsureKey {
            candidate: node,
            change: Change::Promote { node, fold_out: evidence_removal },
        }),
        plan matches Ok(PromotionPlan::AlreadyVoter) ==> a matches ChangeStep::Reply(Ok(_)),
        plan is Err ==> a matches ChangeStep::Reply(Err(_)),
        swap matches Ok(ReplacementPlan::Ready) ==> b == (ChangeStep::EnsureKey {
            candidate: other,
            change: Change::Replace { old: node, new: other },
        }),
        swap matches Ok(ReplacementPlan::Settled) ==> b matches ChangeStep::Reply(Ok(_)),
        swap is Err ==> b matches ChangeStep::Reply(Err(_)),
        keyed is Ok ==> c == ChangeStep::Commit(change),
        keyed is Err ==> c matches ChangeStep::Reply(Err(_)),
{
}

/// An admission is answered outright only when it is wholly done: the seat is
/// there at this very address and the machine's own binding names it. On the
/// leader anything else is verified first, unless the seat is at another
/// address; a follower, and such a seat, are left to the commit.
pub proof fn an_admission_is_done_or_verified_or_committed(
    service: AdminService,
    seam: Seam,
    machine: MachineId,
    req: AddLearnerRequest,
    r: AdmissionStep,
)
    requires
        call_ensures(AdminService::add_learner, (&service, &Caller::Machine(machine), &req), r),
        service.seam == Some(seam),
        req.history_id@ == seam.history_id@,
        req.history_id@.len() == 16,
    ensures
        ({
            let seated = seam.summary.seats(req.node_id);
            let here = seated && seam.summary.members@[seam.summary.seat_of(req.node_id)].addr@
                == req.address@;
            let bound = seam.state.bound_seat(machine) == Some(req.node_id);
            &&& (r matches AdmissionStep::Reply(Ok(_))) <==> here && bound
            &&& r is ReadServingLeaf <==> seam.summary.leader == Some(seam.summary.local_id) && !(
            here && bound) && (here || !seated)
            &&& r is Admit <==> !(here && bound) && (seam.summary.leader != Some(
                seam.summary.local_id,
            ) || (seated && !here))
            &&& r matches AdmissionStep::ReadServingLeaf { address } ==> address@ == req.address@
            &&& r matches AdmissionStep::Admit { node_id, address } ==> node_id == req.node_id
                && address@ == req.address@
        }),
{
}

/// An operator, who presents no machine, replays an admission exactly when the
/// seat is there at this address and some binding of it names both.
pub proof fn an_operators_replay_needs_the_bound_seat(
    service: AdminService,
    seam: Seam,
    cn: String,
    req: AddLearnerRequest,
    r: AdmissionStep,
)
    requires
        call_ensures(
            AdminService::add_learner,
            (&service, &(Caller::Operator { cn }), &req),
            r,
        ),
        service.seam == Some(seam),
        req.history_id@ == seam.history_id@,
        req.history_id@.len() == 16,
    ensures
        (r matches AdmissionStep::Reply(Ok(_))) <==> seam.summary.seats(req.node_id)
            && seam.summary.members@[seam.summary.seat_of(req.node_id)].addr@ == req.address@ && (
        exists|i: int|
            0 <= i < seam.state.bindings@.len() && (#[trigger] seam.state.bindings@[i]).raft_node_id
                == req.node_id && seam.state.bindings@[i].address@ == req.address@),
        !(r matches AdmissionStep::Reply(Err(_))),
{
}

/// An endpoint is believed on two facts of its own: it serves a coordinator's
/// certificate of a machine, the caller's own where a machine calls, and it
/// reports the claimed node. Nothing is bound on less, and nothing more is
/// asked.
pub proof fn an_endpoint_is_believed_on_its_own_word(
    caller: Caller,
    req: AddLearnerRequest,
    leaf: ServingLeaf,
    machine: MachineId,
    probe: EndpointProbe,
    unread: String,
    a: AdmissionStep,
    b: AdmissionStep,
    c: AdmissionStep,
)
    requires
        call_ensures(on_serving_leaf, (&caller, &req, Ok::<ServingLeaf, String>(leaf)), a),
        call_ensures(on_serving_leaf, (&caller, &req, Err::<ServingLeaf, String>(unread)), c),
        call_ensures(on_endpoint_probe, (&req, machine, &probe), b),
    ensures
        a is ProbeEndpoint <==> leaf.org_unit is Some && leaf.org_unit->0@
            == endpoint::COORDINATOR_OU@ && leaf.machine is Some && (caller matches Caller::Machine(
            m,
        ) ==> leaf.machine == Some(m)),
        a matches AdmissionStep::ProbeEndpoint { machine: m, address } ==> leaf.machine == Some(m)
            && address@ == req.address@,
        !(a is ProbeEndpoint) ==> (a matches AdmissionStep::Reply(Err(_))),
        c matches AdmissionStep::Reply(Err(_)),
        b is Bind <==> probe == EndpointProbe::Answered(Some(req.node_id)),
        b matches AdmissionStep::Bind { machine: m, node_id, address } ==> m == machine && node_id
            == req.node_id && address@ == req.address@,
        !(b is Bind) ==> (b matches AdmissionStep::Reply(Err(_))),
{
}

/// The admission commits only once the binding was applied and is visible.
pub proof fn an_admission_commits_after_its_binding(
    req: AddLearnerRequest,
    machine: MachineId,
    applied: Result<Applied, ConsensusError>,
    visible: Result<(), ConsensusError>,
    a: AdmissionStep,
    b: AdmissionStep,
)
    requires
        call_ensures(on_bound, (&req, machine, applied), a),
        call_ensures(on_binding_visible, (&req, visible), b),
    ensures
        applied matches Ok(Applied::At(i)) ==> a == AdmissionStep::AwaitVisible(i),
        !(applied matches Ok(Applied::At(_))) ==> a matches AdmissionStep::Reply(Err(_)),
        visible is Ok ==> (b matches AdmissionStep::Admit { node_id, address } && node_id
            == req.node_id && address@ == req.address@),
        visible is Err ==> b matches AdmissionStep::Reply(Err(_)),
{
}

/// A repointing is done only when membership and the seat's binding both hold
/// the address. An unknown node is refused; a follower leaves it to the
/// commit; the leader verifies it against the machine the seat is bound to,
/// and refuses a seat nothing is bound to.
pub proof fn a_repointing_is_done_when_both_facts_hold(
    service: AdminService,
    seam: Seam,
    cn: String,
    req: SetNodeAddressRequest,
    r: RepointStep,
)
    requires
        call_ensures(
            AdminService::set_node_address,
            (&service, &(Caller::Operator { cn }), &req),
            r,
        ),
        service.seam == Some(seam),
        req.history_id@ == seam.history_id@,
        req.history_id@.len() == 16,
    ensures
        ({
            let seated = seam.summary.seats(req.node_id);
            let here = seated && seam.summary.members@[seam.summary.seat_of(req.node_id)].addr@
                == req.address@;
            let binding = seam.state.seat_binding(req.node_id);
            let follows = binding is None || binding->0.address@ == req.address@;
            let leads = seam.summary.leader == Some(seam.summary.local_id);
            &&& (r matches RepointStep::Reply(Ok(_))) <==> here && follows
            &&& !seated ==> (r matches RepointStep::Reply(Err(e)) && e@.code == Code::NotFound)
            &&& r is Commit <==> seated && !(here && follows) && !leads
            &&& r is Verify <==> seated && !(here && follows) && leads && binding is Some
            &&& seated && !(here && follows) && leads && binding is None ==> (
            r matches RepointStep::Reply(Err(e)) && e@.code == Code::FailedPrecondition)
            &&& r matches RepointStep::Verify { machine, address } ==> machine == binding->0.machine
                && address@ == req.address@
            &&& r matches RepointStep::Commit { node_id, address } ==> node_id == req.node_id
                && address@ == req.address@
        }),
{
}

/// Repointing is the operator's alone.
pub proof fn no_machine_repoints(
    service: AdminService,
    caller: Caller,
    req: SetNodeAddressRequest,
    r: RepointStep,
)
    requires
        call_ensures(AdminService::set_node_address, (&service, &caller, &req), r),
        !(caller is Operator),
    ensures
        r matches RepointStep::Reply(Err(e)) && e@.code == Code::PermissionDenied,
{
}

/// A new address commits only where the seat's own machine serves it and
/// reports the node; then the binding follows where the seat has one, and the
/// verb is over when it is visible.
pub proof fn a_new_address_is_verified_and_followed(
    seam: Seam,
    req: SetNodeAddressRequest,
    machine: MachineId,
    leaf: ServingLeaf,
    probe: EndpointProbe,
    done: Result<(), ConsensusError>,
    applied: Result<Applied, ConsensusError>,
    a: RepointStep,
    b: RepointStep,
    c: RepointStep,
)
    requires
        call_ensures(
            on_repoint_verified,
            (&req, machine, Ok::<ServingLeaf, String>(leaf), &probe),
            a,
        ),
        call_ensures(on_repointed, (&seam, &req, done), b),
        call_ensures(on_rebound, (&req, applied), c),
    ensures
        a is Commit <==> leaf.org_unit is Some && leaf.org_unit->0@ == endpoint::COORDINATOR_OU@
            && leaf.machine == Some(machine) && probe == EndpointProbe::Answered(Some(req.node_id)),
        a matches RepointStep::Commit { node_id, address } ==> node_id == req.node_id && address@
            == req.address@,
        !(a is Commit) ==> (a matches RepointStep::Reply(Err(_))),
        b is Rebind <==> done is Ok && seam.state.seat_binding(req.node_id) is Some,
        b matches RepointStep::Rebind { node_id, address } ==> node_id == req.node_id && address@
            == req.address@,
        done is Ok && seam.state.seat_binding(req.node_id) is None ==> b matches RepointStep::Reply(
            Ok(_),
        ),
        done is Err ==> b matches RepointStep::Reply(Err(_)),
        applied matches Ok(Applied::At(i)) ==> c == RepointStep::AwaitVisible(i),
        !(applied matches Ok(Applied::At(_))) ==> c matches RepointStep::Reply(Err(_)),
{
}

/// A change is done exactly when consensus says so, and a failure keeps the
/// code its kind has.
pub proof fn a_reply_is_consensus_own(outcome: Result<(), ConsensusError>, r: Result<(), Status>)
    requires
        call_ensures(reply_of, (outcome,), r),
    ensures
        r is Ok <==> outcome is Ok,
        (outcome matches Err(ConsensusError::Timeout)) ==> r->Err_0@.code == Code::DeadlineExceeded,
        (outcome matches Err(ConsensusError::MembershipInProgress)) ==> r->Err_0@.code
            == Code::Aborted,
        (outcome matches Err(ConsensusError::UnknownNode { .. })) ==> r->Err_0@.code
            == Code::NotFound,
        (outcome matches Err(ConsensusError::NotLeader { .. })) ==> r->Err_0@.code
            == Code::FailedPrecondition,
{
}

} // verus!
