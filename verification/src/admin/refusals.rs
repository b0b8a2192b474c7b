//! Refusal formatting: one author per marker, so the marker and its tail are
//! worded in a single place.

use vstd::prelude::*;

use crate::cluster::{ConsensusError, MachineId};
use crate::status;
use crate::status::{
    has_marker, Code, Status, StatusView, ADDRESS_CONFLICT, ENDPOINT_UNVERIFIED, HISTORY_CONFLICT,
    IDENTITY_RETIRED, LEARNER_BEHIND, MACHINE_ADDRESS_CONFLICT, MACHINE_IDENTITY_CONFLICT,
    NEW_ALREADY_VOTER, NO_KEY_HOLDER, NO_REMOVABLE_PEER, QUORUM_AT_RISK, UNKNOWN_NODE,
    VOTER_SET_FULL,
};
use crate::text;
use crate::text::decimal_text;

verus! {

/// A caller that reached a replica that does not lead is told who does, when
/// anyone is known to.
pub open spec fn not_leader_text(leader: Option<u64>) -> Seq<char> {
    match leader {
        Some(id) => "not the leader; current leader is node "@ + text::decimal(id as nat)
            + " — retarget the request"@,
        None => "not the leader; no leader currently known (election in progress) — retry"@,
    }
}

/// The wording of [`not_leader_text`].
pub fn not_leader_message(leader: Option<u64>) -> (r: String)
    ensures
        r@ == not_leader_text(leader),
{
    match leader {
        Some(id) => "not the leader; current leader is node ".to_owned().concat(
            decimal_text(id).as_str(),
        ).concat(" — retarget the request"),
        None => "not the leader; no leader currently known (election in progress) — retry".to_owned(),
    }
}

/// The refusal each consensus failure becomes on the admin wire.
pub open spec fn consensus_refusal(err: ConsensusError) -> StatusView {
    match err {
        ConsensusError::NotLeader { leader } => status::refusal(
            Code::FailedPrecondition,
            not_leader_text(leader),
        ),
        ConsensusError::LearnerNotCaughtUp { lag } => status::refusal(
            Code::FailedPrecondition,
            LEARNER_BEHIND@ + ": learner is "@ + text::decimal(lag as nat)
                + " entries behind; retry after catch-up (ADR 0016)"@,
        ),
        ConsensusError::UnknownNode { node } => status::refusal(
            Code::NotFound,
            UNKNOWN_NODE@ + ": node "@ + text::decimal(node as nat)
                + " is not in this cluster's membership (ADR 0037 §6)"@,
        ),
        ConsensusError::AddressConflict { node, current, requested } => status::refusal(
            Code::FailedPrecondition,
            ADDRESS_CONFLICT@ + ": node "@ + text::decimal(node as nat)
                + " is already in membership at "@ + current@ + ", not "@ + requested@
                + " — there is no silent repointing, and an instance whose address changed "@
                + "is a new instance (ADR 0037 §6)"@,
        ),
        ConsensusError::VoterSetFull { node, voters, cluster_size } => status::refusal(
            Code::FailedPrecondition,
            VOTER_SET_FULL@ + ": cannot promote node "@ + text::decimal(node as nat)
                + "; the cluster already has "@ + text::decimal(voters as nat) + " of "@
                + text::decimal(cluster_size as nat)
                + " voters. Remaining a caught-up learner and re-offering is the "@
                + "expected behaviour (ADR 0037 §7)"@,
        ),
        ConsensusError::NoRemovablePeer { node, voters, cluster_size } => status::refusal(
            Code::FailedPrecondition,
            NO_REMOVABLE_PEER@ + ": cannot promote node "@ + text::decimal(node as nat)
                + "; the cluster already has "@ + text::decimal(voters as nat) + " of "@
                + text::decimal(cluster_size as nat)
                + " voters and none of them has been unreachable for longer than the "@
                + "removal grace. A live predecessor never qualifies — a launch-before-terminate "@
                + "replacement is driven with `admin replace-voter` (ADR 0037 §7)"@,
        ),
        ConsensusError::NoKeyHolder => status::refusal(
            Code::FailedPrecondition,
            NO_KEY_HOLDER@
                + ": refusing the change; no continuing voter holds a confirmed CA key. "@
                + "Repair custody (a lost confirmation, or a key file that no longer matches the "@
                + "cluster CA) before retrying (ADR 0037 §4)"@,
        ),
        ConsensusError::QuorumAtRisk { live, continuing } => status::refusal(
            Code::FailedPrecondition,
            QUORUM_AT_RISK@ + ": refusing the change; this leader has recent contact with only "@
                + text::decimal(live as nat) + " of the "@ + text::decimal(continuing as nat)
                + " continuing voters, which is not a live majority (ADR 0037 §7)"@,
        ),
        ConsensusError::OldNotVoter { node } => status::refusal(
            Code::NotFound,
            UNKNOWN_NODE@ + ": node "@ + text::decimal(node as nat)
                + " is not a voter, so it cannot be replaced; "@
                + "`replace-voter` swaps a voter for a caught-up learner (ADR 0037 §7)"@,
        ),
        ConsensusError::NewAlreadyVoter { node } => status::refusal(
            Code::FailedPrecondition,
            NEW_ALREADY_VOTER@ + ": node "@ + text::decimal(node as nat)
                + " is already a voter, so it cannot be the incoming half of a replacement; "@
                + "`replace-voter` swaps a voter for a caught-up learner (ADR 0037 §7)"@,
        ),
        ConsensusError::MembershipInProgress => status::refusal(
            Code::Aborted,
            "a membership change is already in progress; only one may be outstanding (ADR 0016)"@,
        ),
        ConsensusError::Timeout => status::refusal(
            Code::DeadlineExceeded,
            "consensus operation timed out; outcome unknown"@,
        ),
        ConsensusError::Shutdown => status::refusal(
            Code::Unavailable,
            "consensus is shutting down"@,
        ),
        ConsensusError::Fatal(msg) => status::refusal(
            Code::Internal,
            "consensus fault: "@ + msg@,
        ),
    }
}

/// Map a consensus failure onto the status the admin verb returns.
///
/// The retryable failures become `FailedPrecondition`, `Aborted` or
/// `DeadlineExceeded`, so that a caller can branch and retry; terminal ones
/// become `Unavailable`, `Internal`, or carry a terminal marker. Only a
/// learner that is still catching up carries the marker the promotion poll
/// keys on.
pub fn consensus_error_to_status(err: &ConsensusError) -> (r: Status)
    ensures
        r@ == consensus_refusal(*err),
{
    match err {
        ConsensusError::NotLeader { leader } => Status::failed_precondition(
            not_leader_message(*leader),
        ),
        ConsensusError::LearnerNotCaughtUp { lag } => Status::failed_precondition(
            LEARNER_BEHIND.to_owned().concat(": learner is ").concat(
                decimal_text(*lag).as_str(),
            ).concat(" entries behind; retry after catch-up (ADR 0016)"),
        ),
        ConsensusError::UnknownNode { node } => Status::not_found(
            UNKNOWN_NODE.to_owned().concat(": node ").concat(decimal_text(*node).as_str()).concat(
                " is not in this cluster's membership (ADR 0037 §6)",
            ),
        ),
        ConsensusError::AddressConflict { node, current, requested } => Status::failed_precondition(
            ADDRESS_CONFLICT.to_owned().concat(": node ").concat(
                decimal_text(*node).as_str(),
            ).concat(" is already in membership at ").concat(current.as_str()).concat(
                ", not ",
            ).concat(requested.as_str()).concat(
                " — there is no silent repointing, and an instance whose address changed ",
            ).concat("is a new instance (ADR 0037 §6)"),
        ),
        ConsensusError::VoterSetFull { node, voters, cluster_size } => Status::failed_precondition(
            VOTER_SET_FULL.to_owned().concat(": cannot promote node ").concat(
                decimal_text(*node).as_str(),
            ).concat("; the cluster already has ").concat(
                decimal_text(*voters as u64).as_str(),
            ).concat(" of ").concat(decimal_text(*cluster_size as u64).as_str()).concat(
                " voters. Remaining a caught-up learner and re-offering is the ",
            ).concat("expected behaviour (ADR 0037 §7)"),
        ),
        ConsensusError::NoRemovablePeer {
            node,
            voters,
            cluster_size,
        } => Status::failed_precondition(
            NO_REMOVABLE_PEER.to_owned().concat(": cannot promote node ").concat(
                decimal_text(*node).as_str(),
            ).concat("; the cluster already has ").concat(
                decimal_text(*voters as u64).as_str(),
            ).concat(" of ").concat(decimal_text(*cluster_size as u64).as_str()).concat(
                " voters and none of them has been unreachable for longer than the ",
            ).concat(
                "removal grace. A live predecessor never qualifies — a launch-before-terminate ",
            ).concat("replacement is driven with `admin replace-voter` (ADR 0037 §7)"),
        ),
        ConsensusError::NoKeyHolder => Status::failed_precondition(
            NO_KEY_HOLDER.to_owned().concat(
                ": refusing the change; no continuing voter holds a confirmed CA key. ",
            ).concat(
                "Repair custody (a lost confirmation, or a key file that no longer matches the ",
            ).concat("cluster CA) before retrying (ADR 0037 §4)"),
        ),
        ConsensusError::QuorumAtRisk { live, continuing } => Status::failed_precondition(
            QUORUM_AT_RISK.to_owned().concat(
                ": refusing the change; this leader has recent contact with only ",
            ).concat(decimal_text(*live as u64).as_str()).concat(" of the ").concat(
                decimal_text(*continuing as u64).as_str(),
            ).concat(" continuing voters, which is not a live majority (ADR 0037 §7)"),
        ),
        ConsensusError::OldNotVoter { node } => Status::not_found(
            UNKNOWN_NODE.to_owned().concat(": node ").concat(decimal_text(*node).as_str()).concat(
                " is not a voter, so it cannot be replaced; ",
            ).concat("`replace-voter` swaps a voter for a caught-up learner (ADR 0037 §7)"),
        ),
        ConsensusError::NewAlreadyVoter { node } => Status::failed_precondition(
            NEW_ALREADY_VOTER.to_owned().concat(": node ").concat(
                decimal_text(*node).as_str(),
            ).concat(
                " is already a voter, so it cannot be the incoming half of a replacement; ",
            ).concat("`replace-voter` swaps a voter for a caught-up learner (ADR 0037 §7)"),
        ),
        ConsensusError::MembershipInProgress => Status::aborted(
            "a membership change is already in progress; only one may be outstanding (ADR 0016)".to_owned(),
        ),
        ConsensusError::Timeout => Status::deadline_exceeded(
            "consensus operation timed out; outcome unknown".to_owned(),
        ),
        ConsensusError::Shutdown => Status::unavailable("consensus is shutting down".to_owned()),
        ConsensusError::Fatal(msg) => Status::internal(
            "consensus fault: ".to_owned().concat(msg.as_str()),
        ),
    }
}

/// Dial-back verification failed: the advertised endpoint could not be read,
/// presented the wrong identity, or reported the wrong node.
pub open spec fn endpoint_unverified(detail: Seq<char>) -> StatusView {
    status::refusal(
        Code::FailedPrecondition,
        ENDPOINT_UNVERIFIED@ + ": "@ + detail + " (ADR 0037 §6)"@,
    )
}

pub fn endpoint_unverified_status(detail: &str) -> (r: Status)
    ensures
        r@ == endpoint_unverified(detail@),
{
    Status::failed_precondition(
        ENDPOINT_UNVERIFIED.to_owned().concat(": ").concat(detail).concat(" (ADR 0037 §6)"),
    )
}

/// The request is stamped for a raft history that is not this node's. Two
/// histories can never merge.
pub open spec fn history_conflict(incoming: Seq<u8>, stamped: Seq<u8>) -> StatusView {
    status::refusal(
        Code::FailedPrecondition,
        HISTORY_CONFLICT@ + ": request is from history "@ + text::hex_of(incoming)
            + ", this node is stamped for history "@ + text::hex_of(stamped)
            + " — cross-history admin contact refused; this is a wrong data volume or a "@
            + "wiped-and-re-formed cluster, not something waiting fixes (ADR 0016)"@,
    )
}

pub fn history_conflict_status(incoming: &[u8], stamped: &[u8]) -> (r: Status)
    ensures
        r@ == history_conflict(incoming@, stamped@),
{
    Status::failed_precondition(
        HISTORY_CONFLICT.to_owned().concat(": request is from history ").concat(
            text::hex(incoming).as_str(),
        ).concat(", this node is stamped for history ").concat(text::hex(stamped).as_str()).concat(
            " — cross-history admin contact refused; this is a wrong data volume or a ",
        ).concat("wiped-and-re-formed cluster, not something waiting fixes (ADR 0016)"),
    )
}

/// One identity, one seat: this admission would break it.
pub open spec fn machine_identity_conflict(machine: MachineId, raft_node_id: u64) -> StatusView {
    status::refusal(
        Code::FailedPrecondition,
        MACHINE_IDENTITY_CONFLICT@ + ": machine "@ + machine.label() + " cannot take raft node "@
            + text::decimal(raft_node_id as nat)
            + " — one machine identity binds to at most one seat, ever, and "@
            + "one seat to at most one identity. This is a duplicated or stolen "@
            + "coordinator credential, or a misissuance: a replacement installation starts "@
            + "with fresh state and mints a fresh identity (ADR 0037 §7)"@,
    )
}

pub fn machine_identity_conflict_status(machine: MachineId, raft_node_id: u64) -> (r: Status)
    ensures
        r@ == machine_identity_conflict(machine, raft_node_id),
{
    Status::failed_precondition(
        MACHINE_IDENTITY_CONFLICT.to_owned().concat(": machine ").concat(
            machine.text().as_str(),
        ).concat(" cannot take raft node ").concat(decimal_text(raft_node_id).as_str()).concat(
            " — one machine identity binds to at most one seat, ever, and ",
        ).concat("one seat to at most one identity. This is a duplicated or stolen ").concat(
            "coordinator credential, or a misissuance: a replacement installation starts ",
        ).concat("with fresh state and mints a fresh identity (ADR 0037 §7)"),
    )
}

/// The same machine and seat re-offered at a different address: re-admission
/// never repoints.
pub open spec fn machine_address_conflict(machine: MachineId, raft_node_id: u64) -> StatusView {
    status::refusal(
        Code::FailedPrecondition,
        MACHINE_ADDRESS_CONFLICT@ + ": machine "@ + machine.label()
            + " is already bound to raft node "@ + text::decimal(raft_node_id as nat)
            + " at a different address, and re-admission never repoints a "@
            + "seat. An instance whose address changed is a new instance; a genuine move "@
            + "is the operator-only `admin set-address` (ADR 0037 §6/§7)"@,
    )
}

pub fn machine_address_conflict_status(machine: MachineId, raft_node_id: u64) -> (r: Status)
    ensures
        r@ == machine_address_conflict(machine, raft_node_id),
{
    Status::failed_precondition(
        MACHINE_ADDRESS_CONFLICT.to_owned().concat(": machine ").concat(
            machine.text().as_str(),
        ).concat(" is already bound to raft node ").concat(
            decimal_text(raft_node_id).as_str(),
        ).concat(" at a different address, and re-admission never repoints a ").concat(
            "seat. An instance whose address changed is a new instance; a genuine move ",
        ).concat("is the operator-only `admin set-address` (ADR 0037 §6/§7)"),
    )
}

/// The identity was retired when its seat was garbage-collected; its record
/// survives precisely to keep refusing it.
pub open spec fn identity_retired(machine: MachineId) -> StatusView {
    status::refusal(
        Code::FailedPrecondition,
        IDENTITY_RETIRED@ + ": machine "@ + machine.label()
            + " was retired when its seat was garbage-collected "@
            + "after a prolonged loss of contact, and a retired identity is never re-admitted — one "@
            + "identity, one seat, ever. A returning installation starts with fresh state and mints a "@
            + "fresh identity (ADR 0037 §7)"@,
    )
}

pub fn identity_retired_status(machine: MachineId) -> (r: Status)
    ensures
        r@ == identity_retired(machine),
{
    Status::failed_precondition(
        IDENTITY_RETIRED.to_owned().concat(": machine ").concat(machine.text().as_str()).concat(
            " was retired when its seat was garbage-collected ",
        ).concat(
            "after a prolonged loss of contact, and a retired identity is never re-admitted — one ",
        ).concat(
            "identity, one seat, ever. A returning installation starts with fresh state and mints a ",
        ).concat("fresh identity (ADR 0037 §7)"),
    )
}

/// Whether a promotion failure is the retryable "learner still catching up"
/// one: it is headed by that marker. What a refusal quotes further on, an
/// address or an error, does not count.
pub open spec fn reads_as_behind(s: StatusView) -> bool {
    s.code == Code::FailedPrecondition && status::marked(s.message, LEARNER_BEHIND@)
}

/// Whether a promotion failure is the retryable "learner still catching up"
/// one: the poll loop's condition to go on.
pub fn is_learner_behind(s: &Status) -> (r: bool)
    ensures
        r == reads_as_behind(s@),
{
    s.code == Code::FailedPrecondition && has_marker(s.message.as_str(), LEARNER_BEHIND)
}

/// Each consensus failure keeps the code and the marker a caller classifies it
/// by.
pub proof fn each_failure_has_its_code_and_marker(err: ConsensusError, r: Status)
    requires
        call_ensures(consensus_error_to_status, (&err,), r),
    ensures
        err is UnknownNode || err is OldNotVoter <==> r@.code == Code::NotFound,
        err is MembershipInProgress <==> r@.code == Code::Aborted,
        err is Timeout <==> r@.code == Code::DeadlineExceeded,
        err is Shutdown <==> r@.code == Code::Unavailable,
        err is Fatal <==> r@.code == Code::Internal,
        err is LearnerNotCaughtUp ==> LEARNER_BEHIND@.is_prefix_of(r@.message),
        err is VoterSetFull ==> VOTER_SET_FULL@.is_prefix_of(r@.message),
        err is NoRemovablePeer ==> NO_REMOVABLE_PEER@.is_prefix_of(r@.message),
        err is NoKeyHolder ==> NO_KEY_HOLDER@.is_prefix_of(r@.message),
        err is QuorumAtRisk ==> QUORUM_AT_RISK@.is_prefix_of(r@.message),
        err is NewAlreadyVoter ==> NEW_ALREADY_VOTER@.is_prefix_of(r@.message),
        err is AddressConflict ==> ADDRESS_CONFLICT@.is_prefix_of(r@.message),
        err is UnknownNode || err is OldNotVoter ==> UNKNOWN_NODE@.is_prefix_of(r@.message),
{
}

/// A replica that does not lead names the leader it knows.
pub proof fn a_follower_names_the_leader(leader: Option<u64>, r: String)
    requires
        call_ensures(not_leader_message, (leader,), r),
    ensures
        leader matches Some(id) ==> r@ == "not the leader; current leader is node "@
            + text::decimal(id as nat) + " — retarget the request"@,
        leader is None ==> r@
            == "not the leader; no leader currently known (election in progress) — retry"@,
{
}

/// A refusal reads as still catching up exactly when it carries that code and
/// is headed by that marker.
pub proof fn behind_is_read_off_the_head(s: Status, message: &str, headed: bool, r: bool)
    requires
        call_ensures(is_learner_behind, (&s,), r),
        message@ == s@.message,
        call_ensures(has_marker, (message, LEARNER_BEHIND), headed),
    ensures
        r <==> s@.code == Code::FailedPrecondition && headed,
{
}

} // verus!
