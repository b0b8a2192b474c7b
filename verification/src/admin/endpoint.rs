//! Dial-back verification of an advertised endpoint, and the binding of a
//! machine to its seat.
//!
//! Two independent facts have to hold before a seat is created, and neither is
//! something the requester can assert: the serving certificate there presents
//! the machine, and a probe there reports the node.

use vstd::prelude::*;
use vstd::string::*;

use crate::admin::refusals;
use crate::admin::refusals::{
    consensus_error_to_status, endpoint_unverified_status, identity_retired_status,
    machine_address_conflict_status, machine_identity_conflict_status,
};
use crate::cluster::{ConsensusError, MachineId};
use crate::status;
use crate::status::{Code, Status, StatusView};
use crate::text;
use crate::text::decimal_text;

verus! {

/// The organizational unit of a coordinator's certificate.
pub const COORDINATOR_OU: &'static str = "coppice-coordinator";

/// The subject of a serving certificate. `machine` is the identity its common
/// name spells, when it spells one.
#[derive(Debug, Clone)]
pub struct ServingLeaf {
    pub org_unit: Option<String>,
    pub common_name: Option<String>,
    pub machine: Option<MachineId>,
}

/// Whether a leaf is of the coordinator profile.
pub open spec fn coordinator_profile(leaf: ServingLeaf) -> bool {
    leaf.org_unit is Some && leaf.org_unit->0@ == COORDINATOR_OU@
}

/// The view of an optional text.
pub open spec fn opt_view(s: Option<String>) -> Option<Seq<char>> {
    match s {
        Some(s) => Some(s@),
        None => None,
    }
}

/// What is wrong with the certificate read at `addr`, if anything.
pub open spec fn leaf_complaint(addr: Seq<char>, read: Result<ServingLeaf, String>) -> Option<
    StatusView,
> {
    match read {
        Err(e) => Some(
            refusals::endpoint_unverified(
                "could not read the serving certificate at "@ + addr + ": "@ + e@,
            ),
        ),
        Ok(leaf) => if !coordinator_profile(leaf) {
            Some(
                refusals::endpoint_unverified(
                    addr + " does not serve a coordinator-profile certificate (OU "@
                        + text::optional_quoted(opt_view(leaf.org_unit)) + ")"@,
                ),
            )
        } else if leaf.machine is None {
            Some(
                refusals::endpoint_unverified(
                    addr + " serves a coordinator-profile certificate whose CN "@
                        + text::optional_quoted(opt_view(leaf.common_name))
                        + " is not a machine identity"@,
                ),
            )
        } else {
            None
        },
    }
}

/// The machine the endpoint at `addr` serves: its leaf must be readable, of
/// the coordinator profile, and name a machine.
pub fn serving_machine(addr: &str, read: Result<ServingLeaf, String>) -> (r: Result<
    MachineId,
    Status,
>)
    ensures
        match leaf_complaint(addr@, read) {
            Some(s) => status::refused_as(r, s),
            None => r matches Ok(m) && read matches Ok(leaf) && leaf.machine == Some(m),
        },
{
    match read {
        Err(e) => Err(
            endpoint_unverified_status(
                "could not read the serving certificate at ".to_owned().concat(addr).concat(
                    ": ",
                ).concat(e.as_str()).as_str(),
            ),
        ),
        Ok(leaf) => {
            let coordinator = match &leaf.org_unit {
                Some(ou) => text::same(ou.as_str(), COORDINATOR_OU),
                None => false,
            };
            if !coordinator {
                return Err(
                    endpoint_unverified_status(
                        addr.to_owned().concat(
                            " does not serve a coordinator-profile certificate (OU ",
                        ).concat(text::quoted_option(&leaf.org_unit).as_str()).concat(
                            ")",
                        ).as_str(),
                    ),
                );
            }
            match leaf.machine {
                Some(machine) => Ok(machine),
                None => Err(
                    endpoint_unverified_status(
                        addr.to_owned().concat(
                            " serves a coordinator-profile certificate whose CN ",
                        ).concat(text::quoted_option(&leaf.common_name).as_str()).concat(
                            " is not a machine identity",
                        ).as_str(),
                    ),
                ),
            }
        },
    }
}

/// The refusal of an endpoint that serves another machine than claimed.
pub open spec fn wrong_machine(addr: Seq<char>, served: MachineId, claimed: MachineId) -> StatusView {
    refusals::endpoint_unverified(
        addr + " serves machine identity "@ + served.label() + ", not the claimed "@
            + claimed.label(),
    )
}

/// Hold the served identity to the claimed one, when one is claimed. A machine
/// claims its own; an operator holds none, so the endpoint's own identity is
/// the answer.
pub fn claimed_machine(addr: &str, served: MachineId, claimed: Option<MachineId>) -> (r: Result<
    MachineId,
    Status,
>)
    ensures
        claimed is None ==> r == Ok::<MachineId, Status>(served),
        claimed matches Some(m) ==> {
            &&& served == m ==> r == Ok::<MachineId, Status>(served)
            &&& served != m ==> status::refused_as(r, wrong_machine(addr@, served, m))
        },
{
    match claimed {
        Some(machine) => {
            if served == machine {
                Ok(served)
            } else {
                Err(
                    endpoint_unverified_status(
                        addr.to_owned().concat(" serves machine identity ").concat(
                            served.text().as_str(),
                        ).concat(", not the claimed ").concat(machine.text().as_str()).as_str(),
                    ),
                )
            }
        },
        None => Ok(served),
    }
}

/// What a probe of an advertised endpoint came to.
#[derive(Debug, Clone)]
pub enum EndpointProbe {
    /// The endpoint could not be dialled.
    Undialled(String),
    /// It was dialled and refused the probe.
    Refused(String),
    /// It answered, reporting this raft node.
    Answered(Option<u64>),
}

/// What is wrong with a probe of `addr`, if anything.
pub open spec fn probe_complaint(addr: Seq<char>, node_id: u64, probe: EndpointProbe) -> Option<
    StatusView,
> {
    match probe {
        EndpointProbe::Undialled(e) => Some(
            refusals::endpoint_unverified("dialing "@ + addr + " to probe it: "@ + e@),
        ),
        EndpointProbe::Refused(e) => Some(
            refusals::endpoint_unverified("probing "@ + addr + ": "@ + e@),
        ),
        EndpointProbe::Answered(node) => if node != Some(node_id) {
            Some(
                refusals::endpoint_unverified(
                    addr + " reports raft node "@ + text::optional_decimal(node)
                        + ", not the claimed "@ + text::decimal(node_id as nat),
                ),
            )
        } else {
            None
        },
    }
}

/// The endpoint at `addr` must report the claimed node, so that it really is
/// the stamped data directory claiming the seat.
pub fn probe_endpoint_node(addr: &str, node_id: u64, probe: &EndpointProbe) -> (r: Result<
    (),
    Status,
>)
    ensures
        match probe_complaint(addr@, node_id, *probe) {
            Some(s) => status::refused_as(r, s),
            None => r is Ok,
        },
{
    match probe {
        EndpointProbe::Undialled(e) => Err(
            endpoint_unverified_status(
                "dialing ".to_owned().concat(addr).concat(" to probe it: ").concat(
                    e.as_str(),
                ).as_str(),
            ),
        ),
        EndpointProbe::Refused(e) => Err(
            endpoint_unverified_status(
                "probing ".to_owned().concat(addr).concat(": ").concat(e.as_str()).as_str(),
            ),
        ),
        EndpointProbe::Answered(node) => {
            let claimed = match node {
                Some(id) => *id == node_id,
                None => false,
            };
            if claimed {
                Ok(())
            } else {
                Err(
                    endpoint_unverified_status(
                        addr.to_owned().concat(" reports raft node ").concat(
                            text::decimal_option(*node).as_str(),
                        ).concat(", not the claimed ").concat(
                            decimal_text(node_id).as_str(),
                        ).as_str(),
                    ),
                )
            }
        },
    }
}

// ---------------------------------------------------------------------------
// Binding
// ---------------------------------------------------------------------------

/// Why the state machine rejects a proposal, as far as an answer differs.
#[derive(Debug, Clone, Copy, PartialEq, Eq, Structural)]
pub enum Rejection {
    /// The identity or the seat is bound elsewhere.
    MachineIdentityConflict,
    /// The pair is bound at another address.
    MachineAddressConflict,
    /// The identity was retired.
    MachineIdentityRetired,
    /// Anything else.
    Other,
}

/// What applying a proposal came to.
#[derive(Debug, Clone)]
pub enum Applied {
    /// Applied at this log index.
    At(u64),
    /// Rejected, for a reason spelled out.
    Rejected { kind: Rejection, reason: String },
}

/// What keeps a binding from standing, if anything.
pub open spec fn bind_complaint(
    machine: MachineId,
    node: u64,
    applied: Result<Applied, ConsensusError>,
) -> Option<StatusView> {
    match applied {
        Err(e) => Some(refusals::consensus_refusal(e)),
        Ok(Applied::At(_)) => None,
        Ok(Applied::Rejected { kind, reason }) => Some(
            match kind {
                Rejection::MachineIdentityConflict => refusals::machine_identity_conflict(
                    machine,
                    node,
                ),
                Rejection::MachineAddressConflict => refusals::machine_address_conflict(
                    machine,
                    node,
                ),
                Rejection::MachineIdentityRetired => refusals::identity_retired(machine),
                Rejection::Other => status::refusal(
                    Code::FailedPrecondition,
                    "machine-identity binding rejected: "@ + reason@,
                ),
            },
        ),
    }
}

/// What the proposal of a binding came to: the log index it was applied at,
/// or the refusal whose text is the whole diagnosis.
pub fn bind_machine(
    machine: MachineId,
    node: u64,
    applied: Result<Applied, ConsensusError>,
) -> (r: Result<u64, Status>)
    ensures
        match bind_complaint(machine, node, applied) {
            Some(s) => status::refused_as(r, s),
            None => applied matches Ok(Applied::At(i)) && r == Ok::<u64, Status>(i),
        },
{
    match applied {
        Err(e) => Err(consensus_error_to_status(&e)),
        Ok(Applied::At(i)) => Ok(i),
        Ok(Applied::Rejected { kind, reason }) => Err(
            match kind {
                Rejection::MachineIdentityConflict => machine_identity_conflict_status(
                    machine,
                    node,
                ),
                Rejection::MachineAddressConflict => machine_address_conflict_status(
                    machine,
                    node,
                ),
                Rejection::MachineIdentityRetired => identity_retired_status(machine),
                Rejection::Other => Status::failed_precondition(
                    "machine-identity binding rejected: ".to_owned().concat(reason.as_str()),
                ),
            },
        ),
    }
}

/// What an endpoint shows of itself is judged alike wherever it is asked:
/// readable, a coordinator's, of a machine, that machine where one is claimed,
/// and of the claimed node.
pub proof fn an_endpoint_is_held_to_what_it_shows(
    addr: &str,
    leaf: ServingLeaf,
    served: MachineId,
    claimed: Option<MachineId>,
    node_id: u64,
    probe: EndpointProbe,
    a: Result<MachineId, Status>,
    b: Result<MachineId, Status>,
    c: Result<(), Status>,
)
    requires
        call_ensures(serving_machine, (addr, Ok::<ServingLeaf, String>(leaf)), a),
        call_ensures(claimed_machine, (addr, served, claimed), b),
        call_ensures(probe_endpoint_node, (addr, node_id, &probe), c),
    ensures
        a is Ok <==> leaf.org_unit is Some && leaf.org_unit->0@ == "coppice-coordinator"@
            && leaf.machine is Some,
        a matches Ok(m) ==> leaf.machine == Some(m),
        b is Ok <==> claimed is None || claimed == Some(served),
        b matches Ok(m) ==> m == served,
        c is Ok <==> probe == EndpointProbe::Answered(Some(node_id)),
        a matches Err(e) ==> e@.code == Code::FailedPrecondition,
        b matches Err(e) ==> e@.code == Code::FailedPrecondition,
        c matches Err(e) ==> e@.code == Code::FailedPrecondition,
{
}

/// A binding stands exactly when its proposal was applied, and each way it can
/// be rejected for good has a refusal of its own.
pub proof fn a_binding_stands_when_applied(
    machine: MachineId,
    node: u64,
    applied: Result<Applied, ConsensusError>,
    r: Result<u64, Status>,
)
    requires
        call_ensures(bind_machine, (machine, node, applied), r),
    ensures
        r is Ok <==> (applied matches Ok(Applied::At(_))),
        applied matches Ok(Applied::At(i)) ==> r == Ok::<u64, Status>(i),
        applied matches Ok(Applied::Rejected { kind, .. }) ==> r matches Err(e) && {
            &&& e@.code == Code::FailedPrecondition
            &&& kind == Rejection::MachineIdentityConflict ==> e@
                == refusals::machine_identity_conflict(machine, node)
            &&& kind == Rejection::MachineAddressConflict ==> e@
                == refusals::machine_address_conflict(machine, node)
            &&& kind == Rejection::MachineIdentityRetired ==> e@ == refusals::identity_retired(
                machine,
            )
        },
{
}

} // verus!
