//! Who may call what, as attested by the session's client certificate and
//! never by anything in the request body.

use vstd::prelude::*;
use vstd::string::*;

use crate::admin::refusals;
use crate::admin::refusals::history_conflict_status;
use crate::cluster::{ClusterSummary, MachineId, NodeId};
use crate::status;
use crate::status::{Code, Status, StatusView, NOT_AUTHORIZED};
use crate::text;
use crate::text::decimal_text;

verus! {

// ---------------------------------------------------------------------------
// Callers
// ---------------------------------------------------------------------------

/// The profile of a verified client certificate.
#[derive(Debug, Clone)]
pub enum Profile {
    Coordinator(MachineId),
    Agent(NodeId),
    Operator { cn: String },
}

/// Who is calling an admin verb.
#[derive(Debug, Clone)]
pub enum Caller {
    /// The break-glass human or automation credential.
    Operator { cn: String },
    /// One coordinator installation.
    Machine(MachineId),
    /// A compute node. Holds none of the membership surface.
    Agent(NodeId),
}

impl Caller {
    /// How the caller is named in a refusal.
    pub open spec fn described(self) -> Seq<char> {
        match self {
            Caller::Operator { cn } => "operator "@ + text::debug_quoted(cn@),
            Caller::Machine(machine) => "coordinator machine "@ + machine.label(),
            Caller::Agent(node) => "agent "@ + node.label(),
        }
    }

    /// How the caller is named in a refusal. The subject is part of it: the
    /// question after a denial is usually which machine tried.
    pub fn describe(&self) -> (r: String)
        ensures
            r@ == self.described(),
    {
        match self {
            Caller::Operator { cn } => "operator ".to_owned().concat(
                text::quoted(cn.as_str()).as_str(),
            ),
            Caller::Machine(machine) => "coordinator machine ".to_owned().concat(
                machine.text().as_str(),
            ),
            Caller::Agent(node) => "agent ".to_owned().concat(node.text().as_str()),
        }
    }
}

/// What is known of the client certificate a request arrived under.
#[derive(Debug, Clone)]
pub enum LeafCheck {
    /// The session presented none.
    Missing,
    /// It does not verify against the cluster's authority.
    Unverified,
    /// It verifies, with this profile.
    Verified(Profile),
}

/// The caller a certificate attests. A certificate that does not verify is
/// refused without saying why: the caller learns nothing of the trust root.
pub fn caller(leaf: LeafCheck) -> (r: Result<Caller, Status>)
    ensures
        match leaf {
            LeafCheck::Missing => status::refused_as(
                r,
                status::refusal(
                    Code::Unauthenticated,
                    "the admin surface requires a client certificate (ADR 0011/0037 §7)"@,
                ),
            ),
            LeafCheck::Unverified => status::refused_as(
                r,
                status::refusal(
                    Code::Unauthenticated,
                    "client certificate does not verify against the cluster CA"@,
                ),
            ),
            LeafCheck::Verified(profile) => r == Ok::<Caller, Status>(
                match profile {
                    Profile::Coordinator(machine) => Caller::Machine(machine),
                    Profile::Agent(node) => Caller::Agent(node),
                    Profile::Operator { cn } => Caller::Operator { cn },
                },
            ),
        },
{
    match leaf {
        LeafCheck::Missing => Err(
            Status::unauthenticated(
                "the admin surface requires a client certificate (ADR 0011/0037 §7)".to_owned(),
            ),
        ),
        LeafCheck::Unverified => Err(
            Status::unauthenticated(
                "client certificate does not verify against the cluster CA".to_owned(),
            ),
        ),
        LeafCheck::Verified(profile) => Ok(
            match profile {
                Profile::Coordinator(machine) => Caller::Machine(machine),
                Profile::Agent(node) => Caller::Agent(node),
                Profile::Operator { cn } => Caller::Operator { cn },
            },
        ),
    }
}

// ---------------------------------------------------------------------------
// The refusal matrix
// ---------------------------------------------------------------------------

/// The verbs of the admin surface.
#[derive(Debug, Clone, Copy, PartialEq, Eq, Structural)]
pub enum Verb {
    AddLearner,
    PromoteVoter,
    ReplaceVoter,
    TransferCaKey,
    RemoveNode,
    SetNodeAddress,
    ClusterStatus,
    ProbeCluster,
    MintEnrollToken,
    ListEnrollTokens,
    RevokeEnrollToken,
    RevokeIdentity,
    ForwardEnroll,
    RenewCoordinator,
}

impl Verb {
    /// The verb's name on the wire.
    pub open spec fn spelled(self) -> Seq<char> {
        match self {
            Verb::AddLearner => "AddLearner"@,
            Verb::PromoteVoter => "PromoteVoter"@,
            Verb::ReplaceVoter => "ReplaceVoter"@,
            Verb::TransferCaKey => "TransferCaKey"@,
            Verb::RemoveNode => "RemoveNode"@,
            Verb::SetNodeAddress => "SetNodeAddress"@,
            Verb::ClusterStatus => "ClusterStatus"@,
            Verb::ProbeCluster => "ProbeCluster"@,
            Verb::MintEnrollToken => "MintEnrollToken"@,
            Verb::ListEnrollTokens => "ListEnrollTokens"@,
            Verb::RevokeEnrollToken => "RevokeEnrollToken"@,
            Verb::RevokeIdentity => "RevokeIdentity"@,
            Verb::ForwardEnroll => "ForwardEnroll"@,
            Verb::RenewCoordinator => "RenewCoordinator"@,
        }
    }

    /// The verb's name on the wire.
    pub fn name(self) -> (r: &'static str)
        ensures
            r@ == self.spelled(),
    {
        match self {
            Verb::AddLearner => "AddLearner",
            Verb::PromoteVoter => "PromoteVoter",
            Verb::ReplaceVoter => "ReplaceVoter",
            Verb::TransferCaKey => "TransferCaKey",
            Verb::RemoveNode => "RemoveNode",
            Verb::SetNodeAddress => "SetNodeAddress",
            Verb::ClusterStatus => "ClusterStatus",
            Verb::ProbeCluster => "ProbeCluster",
            Verb::MintEnrollToken => "MintEnrollToken",
            Verb::ListEnrollTokens => "ListEnrollTokens",
            Verb::RevokeEnrollToken => "RevokeEnrollToken",
            Verb::RevokeIdentity => "RevokeIdentity",
            Verb::ForwardEnroll => "ForwardEnroll",
            Verb::RenewCoordinator => "RenewCoordinator",
        }
    }

    /// Whether the verb reaches beyond the caller's own seat, and is therefore
    /// the operator's alone.
    pub open spec fn operator_only(self) -> bool {
        match self {
            Verb::ReplaceVoter => true,
            Verb::RemoveNode => true,
            Verb::SetNodeAddress => true,
            Verb::MintEnrollToken => true,
            Verb::ListEnrollTokens => true,
            Verb::RevokeEnrollToken => true,
            Verb::RevokeIdentity => true,
            _ => false,
        }
    }
}

/// Whether the refusal matrix grants `verb` to this caller: an operator holds
/// everything but the renewal of a machine's own leaf, a machine what does not
/// reach beyond its own seat, and an agent nothing.
pub open spec fn granted(verb: Verb, caller: Caller) -> bool {
    match caller {
        Caller::Operator { .. } => verb != Verb::RenewCoordinator,
        Caller::Machine(_) => !verb.operator_only(),
        Caller::Agent(_) => false,
    }
}

/// The refusal of a verb to this caller.
pub open spec fn denial(verb: Seq<char>, caller: Caller) -> StatusView {
    status::refusal(
        Code::PermissionDenied,
        NOT_AUTHORIZED@ + ": "@ + verb + " is not granted to "@ + caller.described()
            + " — see the refusal matrix in ADR 0037 §7"@,
    )
}

/// `verb` is refused to this caller. The message names the verb and the
/// presented profile, because the two together are the whole diagnosis.
pub fn deny(verb: &str, caller: &Caller) -> (r: Status)
    ensures
        r@ == denial(verb@, *caller),
{
    Status::permission_denied(
        NOT_AUTHORIZED.to_owned().concat(": ").concat(verb).concat(" is not granted to ").concat(
            caller.describe().as_str(),
        ).concat(" — see the refusal matrix in ADR 0037 §7"),
    )
}

/// The verbs that reach beyond the caller's own seat: an operator's alone.
pub fn require_operator(caller: Caller, verb: &str) -> (r: Result<Caller, Status>)
    ensures
        r is Ok <==> caller is Operator,
        r matches Ok(c) ==> c == caller,
        r matches Err(e) ==> e@ == denial(verb@, caller),
{
    match caller {
        Caller::Operator { .. } => Ok(caller),
        _ => Err(deny(verb, &caller)),
    }
}

/// The verbs a coordinator machine may call at all. Agents hold none.
pub fn require_operator_or_machine(caller: Caller, verb: &str) -> (r: Result<Caller, Status>)
    ensures
        r is Ok <==> caller is Operator || caller is Machine,
        r matches Ok(c) ==> c == caller,
        r matches Err(e) ==> e@ == denial(verb@, caller),
{
    match caller {
        Caller::Operator { .. } => Ok(caller),
        Caller::Machine(_) => Ok(caller),
        Caller::Agent(_) => Err(deny(verb, &caller)),
    }
}

/// Hold a caller to the refusal matrix.
pub fn authorize(verb: Verb, caller: &Caller) -> (r: Result<(), Status>)
    ensures
        r is Ok <==> granted(verb, *caller),
        r matches Err(e) ==> e@ == denial(verb.spelled(), *caller),
{
    let grant = match caller {
        Caller::Operator { .. } => match verb {
            Verb::RenewCoordinator => false,
            _ => true,
        },
        Caller::Machine(_) => match verb {
            Verb::ReplaceVoter => false,
            Verb::RemoveNode => false,
            Verb::SetNodeAddress => false,
            Verb::MintEnrollToken => false,
            Verb::ListEnrollTokens => false,
            Verb::RevokeEnrollToken => false,
            Verb::RevokeIdentity => false,
            _ => true,
        },
        Caller::Agent(_) => false,
    };
    if grant {
        Ok(())
    } else {
        Err(deny(verb.name(), caller))
    }
}

/// An agent holds none of the membership surface.
pub proof fn agents_hold_nothing(verb: Verb, node: NodeId)
    ensures
        !granted(verb, Caller::Agent(node)),
{
}

/// A machine credential can never remove, replace or repoint anyone, nor mint
/// or revoke a credential.
pub proof fn machines_never_reach_beyond_their_seat(verb: Verb, machine: MachineId)
    ensures
        granted(verb, Caller::Machine(machine)) ==> {
            &&& verb != Verb::RemoveNode
            &&& verb != Verb::ReplaceVoter
            &&& verb != Verb::SetNodeAddress
            &&& verb != Verb::MintEnrollToken
            &&& verb != Verb::ListEnrollTokens
            &&& verb != Verb::RevokeEnrollToken
            &&& verb != Verb::RevokeIdentity
        },
{
}

/// The whole refusal matrix: an operator holds every verb but the renewal of a
/// machine's own leaf; a machine holds the verbs on its own seat and no other;
/// an agent holds none.
pub proof fn the_matrix_grants_each_verb_to_whom_it_concerns(
    verb: Verb,
    caller: Caller,
    r: Result<(), Status>,
)
    requires
        call_ensures(authorize, (verb, &caller), r),
    ensures
        caller is Operator ==> (r is Err <==> verb == Verb::RenewCoordinator),
        caller is Machine ==> (r is Ok <==> verb == Verb::AddLearner || verb == Verb::PromoteVoter
            || verb == Verb::TransferCaKey || verb == Verb::ClusterStatus || verb
            == Verb::ProbeCluster || verb == Verb::ForwardEnroll || verb == Verb::RenewCoordinator),
        caller is Agent ==> r is Err,
        r matches Err(e) ==> e@.code == Code::PermissionDenied && status::marked(
            e@.message,
            NOT_AUTHORIZED@,
        ),
        r is Ok <==> granted(verb, caller),
{
    reveal_strlit("not-authorized");
    reveal_strlit(": ");
    if let Err(e) = r {
        assert(NOT_AUTHORIZED@ + seq![':'] =~= e@.message.subrange(
            0,
            NOT_AUTHORIZED@.len() as int + 1,
        ));
    }
}

/// Each profile makes the caller it attests, and nothing but a verified
/// certificate makes one.
pub proof fn a_caller_is_who_its_certificate_attests(leaf: LeafCheck, r: Result<Caller, Status>)
    requires
        call_ensures(caller, (leaf,), r),
    ensures
        r is Ok <==> leaf is Verified,
        leaf matches LeafCheck::Verified(Profile::Coordinator(m)) ==> r == Ok::<Caller, Status>(
            Caller::Machine(m),
        ),
        leaf matches LeafCheck::Verified(Profile::Agent(n)) ==> r == Ok::<Caller, Status>(
            Caller::Agent(n),
        ),
        leaf matches LeafCheck::Verified(Profile::Operator { cn }) ==> r == Ok::<Caller, Status>(
            Caller::Operator { cn },
        ),
        r matches Err(e) ==> e@.code == Code::Unauthenticated,
{
}

/// A denial is terminal: it never reads as a catch-up wait.
pub proof fn denials_never_read_as_behind(verb: Seq<char>, caller: Caller)
    ensures
        !refusals::reads_as_behind(denial(verb, caller)),
{
}

// ---------------------------------------------------------------------------
// The formed cluster behind the verbs
// ---------------------------------------------------------------------------

/// A machine identity bound to a raft seat.
#[derive(Debug, Clone)]
pub struct Binding {
    pub machine: MachineId,
    pub raft_node_id: u64,
    pub address: String,
    pub bound_at_us: i64,
}

/// What the verbs read of replicated state. Bindings ascend by machine and
/// name each machine once.
#[derive(Debug, Clone)]
pub struct Replicated {
    pub bindings: Vec<Binding>,
    pub key_confirmations: Vec<(u64, i64)>,
    pub key_transfer_intents: Vec<(u64, i64)>,
    pub ca_pem: Option<Vec<u8>>,
}

/// The position of the first binding of this machine, or the count.
pub open spec fn binding_of(bindings: Seq<Binding>, machine: MachineId) -> int
    decreases bindings.len(),
{
    if bindings.len() == 0 || bindings[0].machine == machine {
        0
    } else {
        1 + binding_of(bindings.subrange(1, bindings.len() as int), machine)
    }
}

/// The position of the first binding of this seat, or the count.
pub open spec fn binding_at(bindings: Seq<Binding>, node: u64) -> int
    decreases bindings.len(),
{
    if bindings.len() == 0 || bindings[0].raft_node_id == node {
        0
    } else {
        1 + binding_at(bindings.subrange(1, bindings.len() as int), node)
    }
}

impl Replicated {
    /// The seat this machine is bound to, if any.
    pub open spec fn bound_seat(self, machine: MachineId) -> Option<u64> {
        let at = binding_of(self.bindings@, machine);
        if at < self.bindings@.len() {
            Some(self.bindings@[at].raft_node_id)
        } else {
            None
        }
    }

    /// The binding of this seat, if any.
    pub open spec fn seat_binding(self, node: u64) -> Option<Binding> {
        let at = binding_at(self.bindings@, node);
        if at < self.bindings@.len() {
            Some(self.bindings@[at])
        } else {
            None
        }
    }

    /// The seat this machine is bound to, if any.
    pub fn seat_of_machine(&self, machine: MachineId) -> (r: Option<u64>)
        ensures
            r == self.bound_seat(machine),
    {
        let n: usize = self.bindings.len();
        let mut i: usize = 0;
        assert(self.bindings@.subrange(0, n as int) =~= self.bindings@);
        while i < n
            invariant
                n == self.bindings@.len(),
                i <= n,
                binding_of(self.bindings@, machine) == i + binding_of(
                    self.bindings@.subrange(i as int, n as int),
                    machine,
                ),
            decreases n - i,
        {
            let ghost rest = self.bindings@.subrange(i as int, n as int);
            assert(rest.subrange(1, rest.len() as int) =~= self.bindings@.subrange(
                i + 1,
                n as int,
            ));
            if self.bindings[i].machine == machine {
                return Some(self.bindings[i].raft_node_id);
            }
            i = i + 1;
        }
        None
    }

    /// The position of the first binding of this seat.
    pub fn find_seat(&self, node: u64) -> (r: Option<usize>)
        ensures
            r is Some <==> self.seat_binding(node) is Some,
            r matches Some(i) ==> i < self.bindings@.len() && self.seat_binding(node) == Some(
                self.bindings@[i as int],
            ) && self.bindings@[i as int].raft_node_id == node,
    {
        let n: usize = self.bindings.len();
        let mut i: usize = 0;
        assert(self.bindings@.subrange(0, n as int) =~= self.bindings@);
        while i < n
            invariant
                n == self.bindings@.len(),
                i <= n,
                binding_at(self.bindings@, node) == i + binding_at(
                    self.bindings@.subrange(i as int, n as int),
                    node,
                ),
            decreases n - i,
        {
            let ghost rest = self.bindings@.subrange(i as int, n as int);
            assert(rest.subrange(1, rest.len() as int) =~= self.bindings@.subrange(
                i + 1,
                n as int,
            ));
            if self.bindings[i].raft_node_id == node {
                return Some(i);
            }
            i = i + 1;
        }
        None
    }

    /// Whether this node confirmed durable receipt of the key.
    pub open spec fn confirmed(self, node: u64) -> bool {
        exists|i: int|
            0 <= i < self.key_confirmations@.len() && (#[trigger] self.key_confirmations@[i]).0
                == node
    }

    /// Whether a transfer of the key to this node is on record.
    pub open spec fn intended(self, node: u64) -> bool {
        exists|i: int|
            0 <= i < self.key_transfer_intents@.len()
                && (#[trigger] self.key_transfer_intents@[i]).0 == node
    }

    pub fn has_key_confirmation(&self, node: u64) -> (r: bool)
        ensures
            r == self.confirmed(node),
    {
        let mut i: usize = 0;
        while i < self.key_confirmations.len()
            invariant
                i <= self.key_confirmations@.len(),
                forall|j: int| 0 <= j < i ==> (#[trigger] self.key_confirmations@[j]).0 != node,
            decreases self.key_confirmations@.len() - i,
        {
            if self.key_confirmations[i].0 == node {
                return true;
            }
            i = i + 1;
        }
        false
    }

    pub fn has_key_transfer_intent(&self, node: u64) -> (r: bool)
        ensures
            r == self.intended(node),
    {
        let mut i: usize = 0;
        while i < self.key_transfer_intents.len()
            invariant
                i <= self.key_transfer_intents@.len(),
                forall|j: int|
                    0 <= j < i ==> (#[trigger] self.key_transfer_intents@[j]).0 != node,
            decreases self.key_transfer_intents@.len() - i,
        {
            if self.key_transfer_intents[i].0 == node {
                return true;
            }
            i = i + 1;
        }
        false
    }
}

proof fn binding_of_is_first(bindings: Seq<Binding>, machine: MachineId)
    ensures
        0 <= binding_of(bindings, machine) <= bindings.len(),
        binding_of(bindings, machine) < bindings.len() ==> bindings[binding_of(
            bindings,
            machine,
        )].machine == machine,
        forall|j: int|
            0 <= j < binding_of(bindings, machine) ==> (#[trigger] bindings[j]).machine != machine,
    decreases bindings.len(),
{
    if bindings.len() > 0 && bindings[0].machine != machine {
        let rest = bindings.subrange(1, bindings.len() as int);
        binding_of_is_first(rest, machine);
        assert forall|j: int| 0 <= j < binding_of(bindings, machine) implies (
        #[trigger] bindings[j]).machine != machine by {
            if j > 0 {
                assert(rest[j - 1] == bindings[j]);
            }
        }
    }
}

proof fn binding_at_is_first(bindings: Seq<Binding>, node: u64)
    ensures
        0 <= binding_at(bindings, node) <= bindings.len(),
        binding_at(bindings, node) < bindings.len() ==> bindings[binding_at(
            bindings,
            node,
        )].raft_node_id == node,
        forall|j: int|
            0 <= j < binding_at(bindings, node) ==> (#[trigger] bindings[j]).raft_node_id != node,
    decreases bindings.len(),
{
    if bindings.len() > 0 && bindings[0].raft_node_id != node {
        let rest = bindings.subrange(1, bindings.len() as int);
        binding_at_is_first(rest, node);
        assert forall|j: int| 0 <= j < binding_at(bindings, node) implies (
        #[trigger] bindings[j]).raft_node_id != node by {
            if j > 0 {
                assert(rest[j - 1] == bindings[j]);
            }
        }
    }
}

/// The seat of a machine is the one its replicated binding names, and a
/// machine that no binding names has none.
pub proof fn a_machines_seat_is_its_bindings(
    state: Replicated,
    machine: MachineId,
    at: int,
    r: Option<u64>,
)
    requires
        call_ensures(Replicated::seat_of_machine, (&state, machine), r),
    ensures
        r == state.bound_seat(machine),
        (forall|i: int|
            0 <= i < state.bindings@.len() ==> (#[trigger] state.bindings@[i]).machine != machine)
            ==> r is None,
        0 <= at < state.bindings@.len() && state.bindings@[at].machine == machine && (forall|j: int|
            0 <= j < at ==> (#[trigger] state.bindings@[j]).machine != machine) ==> r == Some(
            state.bindings@[at].raft_node_id,
        ),
{
    binding_of_is_first(state.bindings@, machine);
    let b = binding_of(state.bindings@, machine);
    if b < state.bindings@.len() {
        assert(state.bindings@[b].machine == machine);
    }
}

/// The binding of a seat is one that names it, and there is one exactly where
/// some binding does.
pub proof fn a_seats_binding_names_it(state: Replicated, node: u64, r: Option<usize>)
    requires
        call_ensures(Replicated::find_seat, (&state, node), r),
    ensures
        r is Some <==> exists|i: int|
            0 <= i < state.bindings@.len() && (#[trigger] state.bindings@[i]).raft_node_id == node,
        r is Some <==> state.seat_binding(node) is Some,
        state.seat_binding(node) matches Some(b) ==> b.raft_node_id == node && exists|i: int|
            0 <= i < state.bindings@.len() && (#[trigger] state.bindings@[i]) == b && (forall|j: int|
                0 <= j < i ==> (#[trigger] state.bindings@[j]).raft_node_id != node),
{
    binding_at_is_first(state.bindings@, node);
    let b = binding_at(state.bindings@, node);
    if b < state.bindings@.len() {
        assert(state.bindings@[b].raft_node_id == node);
        assert(state.bindings@[b] == state.seat_binding(node)->0);
    }
}

/// Custody is read off the record: a node confirmed receipt exactly when a
/// confirmation names it, and a transfer to it is intended exactly when an
/// intent does.
pub proof fn custody_is_what_is_on_record(state: Replicated, node: u64, held: bool, meant: bool)
    requires
        call_ensures(Replicated::has_key_confirmation, (&state, node), held),
        call_ensures(Replicated::has_key_transfer_intent, (&state, node), meant),
    ensures
        held == state.confirmed(node),
        meant == state.intended(node),
        held <==> exists|i: int|
            0 <= i < state.key_confirmations@.len() && (#[trigger] state.key_confirmations@[i]).0
                == node,
        meant <==> exists|i: int|
            0 <= i < state.key_transfer_intents@.len() && (
            #[trigger] state.key_transfer_intents@[i]).0 == node,
{
}

/// The formed cluster behind the membership verbs.
#[derive(Debug, Clone)]
pub struct Seam {
    /// The raft history this replica is stamped for.
    pub history_id: Vec<u8>,
    pub summary: ClusterSummary,
    pub state: Replicated,
}

/// The admin surface of one daemon. It is served before a cluster exists, so
/// every membership verb is gated on formation having completed.
#[derive(Debug, Clone)]
pub struct AdminService {
    /// Absent until formation completes.
    pub seam: Option<Seam>,
    /// The bundle of the daemon's own TLS material, when it has any.
    pub disk_ca: Option<Vec<u8>>,
}

/// The refusal of a membership verb before formation.
pub open spec fn unformed_refusal() -> StatusView {
    status::refusal(
        Code::FailedPrecondition,
        "this coordinator has not formed a cluster: membership verbs are not served "@
            + "until the formation_complete marker exists (ADR 0037 §3)"@,
    )
}

/// The refusal of a daemon without TLS material.
pub open spec fn certless_refusal() -> StatusView {
    status::refusal(
        Code::FailedPrecondition,
        "this daemon holds no TLS material, so it can neither classify a caller "@
            + "nor dial back to verify an endpoint (ADR 0037 §7)"@,
    )
}

/// What is wrong with a request's stamped history, if anything.
pub open spec fn history_refusal(incoming: Seq<u8>, stamped: Seq<u8>) -> Option<StatusView> {
    if incoming.len() != 16 {
        Some(
            status::refusal(
                Code::InvalidArgument,
                "history_id must be 16 bytes, got "@ + text::decimal(incoming.len())
                    + " (ADR 0016)"@,
            ),
        )
    } else if incoming != stamped {
        Some(refusals::history_conflict(incoming, stamped))
    } else {
        None
    }
}

/// Refuse a request that is malformed or stamped for a different raft history,
/// before any raft state is touched.
pub fn check_cluster(incoming: &[u8], stamped: &[u8]) -> (r: Result<(), Status>)
    ensures
        match history_refusal(incoming@, stamped@) {
            Some(s) => status::refused_as(r, s),
            None => r is Ok,
        },
{
    if incoming.len() != 16 {
        return Err(
            Status::invalid_argument(
                "history_id must be 16 bytes, got ".to_owned().concat(
                    decimal_text(incoming.len() as u64).as_str(),
                ).concat(" (ADR 0016)"),
            ),
        );
    }
    if !text::same_bytes(incoming, stamped) {
        return Err(history_conflict_status(incoming, stamped));
    }
    Ok(())
}

impl AdminService {
    /// A service on a daemon with no cluster yet.
    pub fn unformed(disk_ca: Option<Vec<u8>>) -> (r: AdminService)
        ensures
            r.seam is None,
            r.disk_ca == disk_ca,
    {
        AdminService { seam: None, disk_ca }
    }

    /// Attach the formed cluster, and republish the TLS material: formation
    /// can mint it after the service was created without any.
    pub fn attach(&mut self, seam: Seam, disk_ca: Vec<u8>)
        ensures
            final(self).seam == Some(seam),
            final(self).disk_ca == Some(disk_ca),
    {
        self.seam = Some(seam);
        self.disk_ca = Some(disk_ca);
    }

    /// The bundle callers are classified against: replicated state first, the
    /// daemon's own bundle before formation, and a refusal without either.
    pub fn authorizing_ca(&self) -> (r: Result<Vec<u8>, Status>)
        ensures
            ({
                let replicated = match self.seam {
                    Some(seam) => seam.state.ca_pem,
                    None => None,
                };
                match (replicated, self.disk_ca) {
                    (Some(pem), _) => r matches Ok(p) && p@ == pem@,
                    (None, Some(pem)) => r matches Ok(p) && p@ == pem@,
                    (None, None) => status::refused_as(r, certless_refusal()),
                }
            }),
    {
        if let Some(seam) = &self.seam {
            if let Some(pem) = &seam.state.ca_pem {
                return Ok(crate::wire::copy_bytes(pem));
            }
        }
        match &self.disk_ca {
            Some(pem) => Ok(crate::wire::copy_bytes(pem)),
            None => Err(
                Status::failed_precondition(
                    "this daemon holds no TLS material, so it can neither classify a caller ".to_owned().concat(
                        "nor dial back to verify an endpoint (ADR 0037 §7)",
                    ),
                ),
            ),
        }
    }

    /// The formed cluster, or the refusal of a daemon that has none.
    pub fn formed(&self) -> (r: Result<&Seam, Status>)
        ensures
            match self.seam {
                Some(seam) => r matches Ok(s) && *s == seam,
                None => status::refused_as(r, unformed_refusal()),
            },
    {
        match &self.seam {
            Some(seam) => Ok(seam),
            None => Err(
                Status::failed_precondition(
                    "this coordinator has not formed a cluster: membership verbs are not served ".to_owned().concat(
                        "until the formation_complete marker exists (ADR 0037 §3)",
                    ),
                ),
            ),
        }
    }

    /// What keeps `verb` from touching raft at all, if anything: the caller,
    /// then formation, then the stamped history.
    pub open spec fn barred(self, verb: Verb, caller: Caller, history: Seq<u8>) -> Option<
        StatusView,
    > {
        if !granted(verb, caller) {
            Some(denial(verb.spelled(), caller))
        } else {
            match self.seam {
                None => Some(unformed_refusal()),
                Some(seam) => history_refusal(history, seam.history_id@),
            }
        }
    }

    /// What every membership verb passes first: the caller is held to the
    /// refusal matrix, then the cluster must be formed, then the request must
    /// be stamped for this raft history.
    pub fn gate(&self, verb: Verb, caller: &Caller, history: &Vec<u8>) -> (r: Result<&Seam, Status>)
        ensures
            match self.barred(verb, *caller, history@) {
                Some(s) => status::refused_as(r, s),
                None => r matches Ok(seam) && self.seam == Some(*seam),
            },
    {
        if let Err(e) = authorize(verb, caller) {
            return Err(e);
        }
        match self.formed() {
            Err(e) => Err(e),
            Ok(seam) => match check_cluster(history.as_slice(), seam.history_id.as_slice()) {
                Err(e) => Err(e),
                Ok(_) => Ok(seam),
            },
        }
    }
}

/// A request of this cluster's own history is never turned away for it, and
/// one of any other, or of another length, always is.
pub proof fn only_the_stamped_history_passes(
    incoming: Seq<u8>,
    stamped: Seq<u8>,
    a: &[u8],
    b: &[u8],
    r: Result<(), Status>,
)
    requires
        a@ == incoming,
        b@ == stamped,
        call_ensures(check_cluster, (a, b), r),
    ensures
        r is Ok <==> incoming == stamped && incoming.len() == 16,
        incoming.len() != 16 ==> (r matches Err(e) && e@.code == Code::InvalidArgument),
        incoming.len() == 16 && incoming != stamped ==> (r matches Err(e) && e@.code
            == Code::FailedPrecondition),
{
}

/// What every verb passes first, in the order it is judged: a caller without
/// the verb is denied whatever else holds; then nothing is served before
/// formation; then only this cluster's history is; and whoever passes all
/// three passes.
pub proof fn a_verb_is_barred_for_cause_only(
    service: AdminService,
    verb: Verb,
    who: Caller,
    history: Vec<u8>,
    may: Result<(), Status>,
    r: Result<&Seam, Status>,
)
    requires
        call_ensures(authorize, (verb, &who), may),
        call_ensures(AdminService::gate, (&service, verb, &who, &history), r),
    ensures
        r is Ok <==> may is Ok && service.seam is Some && history@ == service.seam->0.history_id@
            && history@.len() == 16,
        r matches Ok(seam) ==> service.seam == Some(*seam),
        may is Err ==> (r matches Err(e) && e@.code == Code::PermissionDenied),
        may is Ok && service.seam is None ==> (r matches Err(e) && e@.code
            == Code::FailedPrecondition),
        r is Ok <==> service.barred(verb, who, history@) is None,
        r matches Err(e) ==> service.barred(verb, who, history@) == Some(e@),
{
}

/// Callers are judged by the replicated root as soon as there is one, and by
/// the daemon's own bundle before.
pub proof fn the_replicated_root_judges_first(service: AdminService, r: Result<Vec<u8>, Status>)
    requires
        call_ensures(AdminService::authorizing_ca, (&service,), r),
    ensures
        service.seam matches Some(seam) && seam.state.ca_pem is Some ==> (r matches Ok(p) && p@
            == service.seam->0.state.ca_pem->0@),
        (service.seam is None || service.seam->0.state.ca_pem is None) && service.disk_ca is Some
            ==> (r matches Ok(p) && p@ == service.disk_ca->0@),
        (service.seam is None || service.seam->0.state.ca_pem is None) && service.disk_ca is None
            ==> r is Err,
{
}

/// The two standing requirements: an operator alone, or an operator or a
/// machine; whoever meets one is handed on as they are.
pub proof fn a_requirement_lets_its_callers_through(
    who: Caller,
    verb: &str,
    a: Result<Caller, Status>,
    b: Result<Caller, Status>,
)
    requires
        call_ensures(require_operator, (who, verb), a),
        call_ensures(require_operator_or_machine, (who, verb), b),
    ensures
        a is Ok <==> who is Operator,
        b is Err <==> who is Agent,
        a is Ok ==> a == Ok::<Caller, Status>(who),
        b is Ok ==> b == Ok::<Caller, Status>(who),
        a matches Err(e) ==> e@.code == Code::PermissionDenied,
        b matches Err(e) ==> e@.code == Code::PermissionDenied,
{
}

/// A service knows its cluster from the moment it is attached, and not before.
pub proof fn a_cluster_is_known_once_attached(
    service: &mut AdminService,
    seam: Seam,
    disk_ca: Vec<u8>,
    early: AdminService,
    own: Option<Vec<u8>>,
)
    requires
        call_ensures(AdminService::attach, (service, seam, disk_ca), ()),
        call_ensures(AdminService::unformed, (own,), early),
    ensures
        final(service).seam == Some(seam),
        final(service).disk_ca == Some(disk_ca),
        early.seam is None,
        early.disk_ca == own,
{
}

} // verus!
