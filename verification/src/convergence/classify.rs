//! Reading a membership refusal, and the waits between ticks.
//!
//! Every membership refusal the server constructs begins with a stable marker,
//! so the discrimination here is a match on that prefix and never on prose.
//! Codes are deliberately not consulted: anything unmarked is retried, which
//! is safe because the verbs are idempotent.

use vstd::prelude::*;
use vstd::string::*;

use crate::admin::laws;
use crate::admin::refusals;
use crate::cluster::{ConsensusError, MachineId};
use crate::status;
use crate::status::{
    has_marker, Status, StatusView, ADDRESS_CONFLICT, ENDPOINT_UNVERIFIED, HISTORY_CONFLICT,
    IDENTITY_RETIRED, KEY_UNAVAILABLE, LEARNER_BEHIND, MACHINE_ADDRESS_CONFLICT,
    MACHINE_IDENTITY_CONFLICT, NO_KEY_HOLDER, NO_REMOVABLE_PEER, QUORUM_AT_RISK, UNKNOWN_NODE,
    VOTER_SET_FULL,
};
use crate::text;
use crate::time;
use crate::time::Duration;

verus! {

/// What one pass against a leader achieved, and therefore how long to wait.
#[derive(Debug, Clone)]
pub enum JoinStep {
    /// Promotion succeeded: this replica is now a voter.
    Promoted,
    /// Admitted (or already) a learner, still catching up: keep polling.
    Learner,
    /// No voter seat is available yet. Not terminal: this replica stays a
    /// caught-up learner and keeps polling, with the reason visible.
    VoterSetFull(String),
    /// A retryable failure: not the leader, an election in flight, an
    /// unreachable dial.
    Retry,
    /// A refusal no amount of waiting fixes.
    Refused(String),
    /// The leader could not verify the advertised endpoint: surfaced like a
    /// refusal, but retried at the fast cadence.
    EndpointUnverified(String),
}

/// Where a refusal leads.
pub enum Route {
    Held,
    Refused,
    Unverified,
    Behind,
    Retry,
}

/// The markers of a seat that is not available yet.
pub open spec fn holds(message: Seq<char>) -> bool {
    ||| status::marked(message, VOTER_SET_FULL@)
    ||| status::marked(message, NO_REMOVABLE_PEER@)
    ||| status::marked(message, QUORUM_AT_RISK@)
}

/// The markers of a refusal that waiting does not fix.
pub open spec fn terminal(message: Seq<char>) -> bool {
    ||| status::marked(message, MACHINE_IDENTITY_CONFLICT@)
    ||| status::marked(message, MACHINE_ADDRESS_CONFLICT@)
    ||| status::marked(message, ADDRESS_CONFLICT@)
    ||| status::marked(message, UNKNOWN_NODE@)
    ||| status::marked(message, HISTORY_CONFLICT@)
    ||| status::marked(message, NO_KEY_HOLDER@)
    ||| status::marked(message, KEY_UNAVAILABLE@)
    ||| status::marked(message, IDENTITY_RETIRED@)
}

/// Where a refusal with this message leads.
pub open spec fn route(message: Seq<char>) -> Route {
    if holds(message) {
        Route::Held
    } else if terminal(message) {
        Route::Refused
    } else if status::marked(message, ENDPOINT_UNVERIFIED@) {
        Route::Unverified
    } else if status::marked(message, LEARNER_BEHIND@) {
        Route::Behind
    } else {
        Route::Retry
    }
}

/// Whether `step` is where `message` leads, carrying the message where an
/// operator has to see it.
pub open spec fn follows(step: JoinStep, message: Seq<char>) -> bool {
    match step {
        JoinStep::Promoted => false,
        JoinStep::Learner => route(message) is Behind,
        JoinStep::VoterSetFull(m) => route(message) is Held && m@ == message,
        JoinStep::Retry => route(message) is Retry,
        JoinStep::Refused(m) => route(message) is Refused && m@ == message,
        JoinStep::EndpointUnverified(m) => route(message) is Unverified && m@ == message,
    }
}

/// Classify a membership refusal into a convergence step.
pub fn classify(status: &Status) -> (r: JoinStep)
    ensures
        follows(r, status@.message),
{
    let message = status.message();
    if has_marker(message, VOTER_SET_FULL) || has_marker(message, NO_REMOVABLE_PEER) || has_marker(
        message,
        QUORUM_AT_RISK,
    ) {
        return JoinStep::VoterSetFull(message.to_owned());
    }
    if has_marker(message, MACHINE_IDENTITY_CONFLICT) || has_marker(
        message,
        MACHINE_ADDRESS_CONFLICT,
    ) || has_marker(message, ADDRESS_CONFLICT) || has_marker(message, UNKNOWN_NODE) || has_marker(
        message,
        HISTORY_CONFLICT,
    ) || has_marker(message, NO_KEY_HOLDER) || has_marker(message, KEY_UNAVAILABLE) || has_marker(
        message,
        IDENTITY_RETIRED,
    ) {
        return JoinStep::Refused(message.to_owned());
    }
    if has_marker(message, ENDPOINT_UNVERIFIED) {
        return JoinStep::EndpointUnverified(message.to_owned());
    }
    if has_marker(message, LEARNER_BEHIND) {
        return JoinStep::Learner;
    }
    JoinStep::Retry
}

// ---------------------------------------------------------------------------
// Routing laws
// ---------------------------------------------------------------------------

/// The markers that route, all of them.
spec fn routing_marker(m: Seq<char>) -> bool {
    ||| m == VOTER_SET_FULL@
    ||| m == NO_REMOVABLE_PEER@
    ||| m == QUORUM_AT_RISK@
    ||| m == MACHINE_IDENTITY_CONFLICT@
    ||| m == MACHINE_ADDRESS_CONFLICT@
    ||| m == ADDRESS_CONFLICT@
    ||| m == UNKNOWN_NODE@
    ||| m == HISTORY_CONFLICT@
    ||| m == NO_KEY_HOLDER@
    ||| m == KEY_UNAVAILABLE@
    ||| m == IDENTITY_RETIRED@
    ||| m == ENDPOINT_UNVERIFIED@
    ||| m == LEARNER_BEHIND@
}

proof fn reveal_markers()
    ensures
        VOTER_SET_FULL@ == "voter-set-full"@,
        "voter-set-full"@.len() == 14,
        NO_REMOVABLE_PEER@.len() == 17,
        QUORUM_AT_RISK@.len() == 14,
        MACHINE_IDENTITY_CONFLICT@.len() == 25,
        MACHINE_ADDRESS_CONFLICT@.len() == 24,
        ADDRESS_CONFLICT@.len() == 16,
        UNKNOWN_NODE@.len() == 12,
        HISTORY_CONFLICT@.len() == 16,
        NO_KEY_HOLDER@.len() == 13,
        KEY_UNAVAILABLE@.len() == 15,
        IDENTITY_RETIRED@.len() == 16,
        ENDPOINT_UNVERIFIED@.len() == 19,
        LEARNER_BEHIND@.len() == 14,
        VOTER_SET_FULL@[0] == 'v',
        NO_REMOVABLE_PEER@[0] == 'n',
        NO_REMOVABLE_PEER@[2] == '-',
        QUORUM_AT_RISK@[0] == 'q',
        MACHINE_IDENTITY_CONFLICT@[0] == 'm',
        MACHINE_ADDRESS_CONFLICT@[0] == 'm',
        ADDRESS_CONFLICT@[0] == 'a',
        ADDRESS_CONFLICT@[1] == 'd',
        UNKNOWN_NODE@[0] == 'u',
        HISTORY_CONFLICT@[0] == 'h',
        NO_KEY_HOLDER@[0] == 'n',
        NO_KEY_HOLDER@[2] == '-',
        KEY_UNAVAILABLE@[0] == 'k',
        IDENTITY_RETIRED@[0] == 'i',
        ENDPOINT_UNVERIFIED@[0] == 'e',
        LEARNER_BEHIND@[0] == 'l',
        forall|m: Seq<char>| #[trigger] routing_marker(m) ==> laws::colon_free(m) && m.len() > 2,
{
    reveal_strlit("voter-set-full");
    reveal_strlit("no-removable-peer");
    reveal_strlit("quorum-at-risk");
    reveal_strlit("machine-identity-conflict");
    reveal_strlit("machine-address-conflict");
    reveal_strlit("address-conflict");
    reveal_strlit("unknown-node");
    reveal_strlit("history-conflict");
    reveal_strlit("no-key-holder");
    reveal_strlit("key-unavailable");
    reveal_strlit("identity-retired");
    reveal_strlit("endpoint-unverified");
    reveal_strlit("learner-behind");
}

/// A message headed by one routing marker is headed by no other.
proof fn heads_once(message: Seq<char>, marker: Seq<char>)
    requires
        routing_marker(marker),
        status::marked(message, marker),
    ensures
        forall|m: Seq<char>| #[trigger] status::marked(message, m) && routing_marker(m) ==> m == marker,
{
    reveal_markers();
    assert forall|m: Seq<char>| #[trigger]
        status::marked(message, m) && routing_marker(m) implies m == marker by {
        laws::one_marker(message, m, marker);
    }
}

/// A marked message begins with its marker's characters.
proof fn starts_alike(message: Seq<char>, marker: Seq<char>)
    requires
        status::marked(message, marker),
        marker.len() > 2,
    ensures
        message.len() > 3,
        message[0] == marker[0],
        message[1] == marker[1],
        message[2] == marker[2],
{
    let h = marker + seq![':'];
    let s = message.subrange(0, h.len() as int);
    assert(s[0] == h[0] && s[1] == h[1] && s[2] == h[2]);
}

/// A message that begins with none of the routing markers' characters is
/// retried.
proof fn unmarked_retries(message: Seq<char>)
    requires
        message.len() <= 2 || {
            &&& message[0] != 'v' && message[0] != 'q' && message[0] != 'm' && message[0] != 'u'
            &&& message[0] != 'h' && message[0] != 'k' && message[0] != 'i' && message[0] != 'e'
            &&& message[0] != 'l'
            &&& message[0] == 'n' ==> message[2] != '-'
            &&& message[0] == 'a' ==> message[1] != 'd'
        },
    ensures
        route(message) is Retry,
{
    reveal_markers();
    assert forall|m: Seq<char>| #[trigger] routing_marker(m) implies !status::marked(
        message,
        m,
    ) by {
        if status::marked(message, m) {
            starts_alike(message, m);
        }
    }
    assert(routing_marker(VOTER_SET_FULL@) && routing_marker(NO_REMOVABLE_PEER@) && routing_marker(
        QUORUM_AT_RISK@,
    ));
    assert(routing_marker(MACHINE_IDENTITY_CONFLICT@) && routing_marker(MACHINE_ADDRESS_CONFLICT@));
    assert(routing_marker(ADDRESS_CONFLICT@) && routing_marker(UNKNOWN_NODE@));
    assert(routing_marker(HISTORY_CONFLICT@) && routing_marker(NO_KEY_HOLDER@));
    assert(routing_marker(KEY_UNAVAILABLE@) && routing_marker(IDENTITY_RETIRED@));
    assert(routing_marker(ENDPOINT_UNVERIFIED@) && routing_marker(LEARNER_BEHIND@));
}

/// What a message marked by one of the routing markers leads to.
proof fn marked_routes(message: Seq<char>, marker: Seq<char>)
    requires
        routing_marker(marker),
        status::marked(message, marker),
    ensures
        route(message) is Held <==> (marker == VOTER_SET_FULL@ || marker == NO_REMOVABLE_PEER@
            || marker == QUORUM_AT_RISK@),
        route(message) is Unverified <==> marker == ENDPOINT_UNVERIFIED@,
        route(message) is Behind <==> marker == LEARNER_BEHIND@,
        !(route(message) is Retry),
{
    reveal_markers();
    heads_once(message, marker);
}

/// Where each failure of the consensus seam leads a converging replica: a
/// seat that is not free yet keeps it polling, a learner that is behind keeps
/// it polling fast, a wrong node or a custody repair stops it, and everything
/// else is retried.
pub proof fn consensus_refusals_route(err: ConsensusError)
    ensures
        route(refusals::consensus_refusal(err).message) == match err {
            ConsensusError::VoterSetFull { .. } => Route::Held,
            ConsensusError::NoRemovablePeer { .. } => Route::Held,
            ConsensusError::QuorumAtRisk { .. } => Route::Held,
            ConsensusError::AddressConflict { .. } => Route::Refused,
            ConsensusError::UnknownNode { .. } => Route::Refused,
            ConsensusError::OldNotVoter { .. } => Route::Refused,
            ConsensusError::NoKeyHolder => Route::Refused,
            ConsensusError::LearnerNotCaughtUp { .. } => Route::Behind,
            _ => Route::Retry,
        },
{
    reveal_markers();
    let message = refusals::consensus_refusal(err).message;
    match err {
        ConsensusError::NotLeader { leader } => {
            reveal_strlit("not the leader; current leader is node ");
            reveal_strlit(
                "not the leader; no leader currently known (election in progress) — retry",
            );
            unmarked_retries(message);
        },
        ConsensusError::LearnerNotCaughtUp { .. } => {
            reveal_strlit(": learner is ");
            assert(message.subrange(0, 15) =~= LEARNER_BEHIND@ + seq![':']);
            marked_routes(message, LEARNER_BEHIND@);
        },
        ConsensusError::UnknownNode { .. } => {
            reveal_strlit(": node ");
            assert(message.subrange(0, 13) =~= UNKNOWN_NODE@ + seq![':']);
            marked_routes(message, UNKNOWN_NODE@);
        },
        ConsensusError::AddressConflict { .. } => {
            reveal_strlit(": node ");
            assert(message.subrange(0, 17) =~= ADDRESS_CONFLICT@ + seq![':']);
            marked_routes(message, ADDRESS_CONFLICT@);
        },
        ConsensusError::VoterSetFull { .. } => {
            reveal_strlit(": cannot promote node ");
            assert(message.subrange(0, 15) =~= VOTER_SET_FULL@ + seq![':']);
            marked_routes(message, VOTER_SET_FULL@);
        },
        ConsensusError::NoRemovablePeer { .. } => {
            reveal_strlit(": cannot promote node ");
            assert(message.subrange(0, 18) =~= NO_REMOVABLE_PEER@ + seq![':']);
            marked_routes(message, NO_REMOVABLE_PEER@);
        },
        ConsensusError::NoKeyHolder => {
            reveal_strlit(": refusing the change; no continuing voter holds a confirmed CA key. ");
            assert(message.subrange(0, 14) =~= NO_KEY_HOLDER@ + seq![':']);
            marked_routes(message, NO_KEY_HOLDER@);
        },
        ConsensusError::QuorumAtRisk { .. } => {
            reveal_strlit(": refusing the change; this leader has recent contact with only ");
            assert(message.subrange(0, 15) =~= QUORUM_AT_RISK@ + seq![':']);
            marked_routes(message, QUORUM_AT_RISK@);
        },
        ConsensusError::OldNotVoter { .. } => {
            reveal_strlit(": node ");
            assert(message.subrange(0, 13) =~= UNKNOWN_NODE@ + seq![':']);
            marked_routes(message, UNKNOWN_NODE@);
        },
        ConsensusError::NewAlreadyVoter { .. } => {
            reveal_strlit("new-already-voter");
            unmarked_retries(message);
        },
        ConsensusError::MembershipInProgress => {
            reveal_strlit(
                "a membership change is already in progress; only one may be outstanding (ADR 0016)",
            );
            unmarked_retries(message);
        },
        ConsensusError::Timeout => {
            reveal_strlit("consensus operation timed out; outcome unknown");
            unmarked_retries(message);
        },
        ConsensusError::Shutdown => {
            reveal_strlit("consensus is shutting down");
            unmarked_retries(message);
        },
        ConsensusError::Fatal(_) => {
            reveal_strlit("consensus fault: ");
            unmarked_retries(message);
        },
    }
}

/// A broken machine binding is terminal for the tick, whichever way it broke.
pub proof fn binding_refusals_are_terminal(machine: MachineId, node: u64)
    ensures
        route(refusals::machine_identity_conflict(machine, node).message) is Refused,
        route(refusals::machine_address_conflict(machine, node).message) is Refused,
        route(refusals::identity_retired(machine).message) is Refused,
{
    reveal_markers();
    reveal_strlit(": machine ");
    let a = refusals::machine_identity_conflict(machine, node).message;
    assert(a.subrange(0, 26) =~= MACHINE_IDENTITY_CONFLICT@ + seq![':']);
    marked_routes(a, MACHINE_IDENTITY_CONFLICT@);
    let b = refusals::machine_address_conflict(machine, node).message;
    assert(b.subrange(0, 25) =~= MACHINE_ADDRESS_CONFLICT@ + seq![':']);
    marked_routes(b, MACHINE_ADDRESS_CONFLICT@);
    let c = refusals::identity_retired(machine).message;
    assert(c.subrange(0, 17) =~= IDENTITY_RETIRED@ + seq![':']);
    marked_routes(c, IDENTITY_RETIRED@);
}

/// An endpoint that could not be verified is surfaced and retried fast,
/// whatever the detail says.
pub proof fn unverified_endpoints_are_surfaced(detail: Seq<char>)
    ensures
        route(refusals::endpoint_unverified(detail).message) is Unverified,
{
    reveal_markers();
    reveal_strlit(": ");
    let m = refusals::endpoint_unverified(detail).message;
    assert(m.subrange(0, 20) =~= ENDPOINT_UNVERIFIED@ + seq![':']);
    marked_routes(m, ENDPOINT_UNVERIFIED@);
}

// ---------------------------------------------------------------------------
// Cross-history contact
// ---------------------------------------------------------------------------

/// What a stamped replica says when the cluster it found carries a different
/// raft history.
pub open spec fn cross_history_text(
    leader_addr: Seq<char>,
    cluster_history: Seq<u8>,
    stamped: Seq<u8>,
) -> Seq<char> {
    HISTORY_CONFLICT@ + ": the cluster at "@ + leader_addr + " carries history "@ + text::hex_of(
        cluster_history,
    ) + ", but this replica is stamped for history "@ + text::hex_of(stamped)
        + " — a cross-history join can never succeed; this is a wrong data volume or a "@
        + "wiped-and-re-formed cluster, not something waiting fixes (ADR 0016 / ADR 0037 §3)"@
}

/// The client-side cross-history refusal. It wears the marker of the server's
/// own refusal, so a status page reads alike whichever side saw it first.
pub fn cross_history_refusal(leader_addr: &str, cluster_history: &[u8], stamped: &[u8]) -> (r:
    String)
    ensures
        r@ == cross_history_text(leader_addr@, cluster_history@, stamped@),
{
    HISTORY_CONFLICT.to_owned().concat(": the cluster at ").concat(leader_addr).concat(
        " carries history ",
    ).concat(text::hex(cluster_history).as_str()).concat(
        ", but this replica is stamped for history ",
    ).concat(text::hex(stamped).as_str()).concat(
        " — a cross-history join can never succeed; this is a wrong data volume or a ",
    ).concat("wiped-and-re-formed cluster, not something waiting fixes (ADR 0016 / ADR 0037 §3)")
}

/// A cross-history contact is terminal from either side, and both sides name
/// it by the same marker.
pub proof fn cross_history_is_terminal(
    leader_addr: Seq<char>,
    cluster_history: Seq<u8>,
    stamped: Seq<u8>,
)
    ensures
        status::marked(
            cross_history_text(leader_addr, cluster_history, stamped),
            HISTORY_CONFLICT@,
        ),
        route(cross_history_text(leader_addr, cluster_history, stamped)) is Refused,
        status::marked(
            refusals::history_conflict(cluster_history, stamped).message,
            HISTORY_CONFLICT@,
        ),
        route(refusals::history_conflict(cluster_history, stamped).message) is Refused,
{
    reveal_markers();
    reveal_strlit(": the cluster at ");
    let a = cross_history_text(leader_addr, cluster_history, stamped);
    assert(a.subrange(0, 17) =~= HISTORY_CONFLICT@ + seq![':']);
    marked_routes(a, HISTORY_CONFLICT@);
    reveal_strlit(": request is from history ");
    let b = refusals::history_conflict(cluster_history, stamped).message;
    assert(b.subrange(0, 17) =~= HISTORY_CONFLICT@ + seq![':']);
    marked_routes(b, HISTORY_CONFLICT@);
}

/// What a refusal's marker makes of a pass: a seat that is not free holds it,
/// a refusal for good ends it, an endpoint that could not be verified is
/// surfaced, a learner that is behind goes on, and anything else is retried.
/// What an operator has to see is the refusal's own text.
pub proof fn a_refusal_leads_where_its_marker_says(status: Status, marker: Seq<char>, r: JoinStep)
    requires
        call_ensures(classify, (&status,), r),
        status::marked(status@.message, marker),
    ensures
        marker == VOTER_SET_FULL@ || marker == NO_REMOVABLE_PEER@ || marker == QUORUM_AT_RISK@ ==> (
        r matches JoinStep::VoterSetFull(m) && m@ == status@.message),
        marker == MACHINE_IDENTITY_CONFLICT@ || marker == MACHINE_ADDRESS_CONFLICT@ || marker
            == ADDRESS_CONFLICT@ || marker == UNKNOWN_NODE@ || marker == HISTORY_CONFLICT@ || marker
            == NO_KEY_HOLDER@ || marker == KEY_UNAVAILABLE@ || marker == IDENTITY_RETIRED@ ==> (
        r matches JoinStep::Refused(m) && m@ == status@.message),
        marker == ENDPOINT_UNVERIFIED@ ==> (r matches JoinStep::EndpointUnverified(m) && m@
            == status@.message),
        marker == LEARNER_BEHIND@ ==> r is Learner,
        !(r is Promoted),
{
    reveal_markers();
    if routing_marker(marker) {
        heads_once(status@.message, marker);
        marked_routes(status@.message, marker);
    }
}

/// A refusal that carries none of the markers is retried.
pub proof fn an_unmarked_refusal_is_retried(status: Status, r: JoinStep)
    requires
        call_ensures(classify, (&status,), r),
        forall|m: Seq<char>| #[trigger] status::marked(status@.message, m) ==> m != VOTER_SET_FULL@
            && m != NO_REMOVABLE_PEER@ && m != QUORUM_AT_RISK@ && m != MACHINE_IDENTITY_CONFLICT@
            && m != MACHINE_ADDRESS_CONFLICT@ && m != ADDRESS_CONFLICT@ && m != UNKNOWN_NODE@ && m
            != HISTORY_CONFLICT@ && m != NO_KEY_HOLDER@ && m != KEY_UNAVAILABLE@ && m
            != IDENTITY_RETIRED@ && m != ENDPOINT_UNVERIFIED@ && m != LEARNER_BEHIND@,
    ensures
        r is Retry,
{
}

} // verus!
