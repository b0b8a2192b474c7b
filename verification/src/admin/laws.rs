//! What every refusal keeps: one marker at its head, and the marker that the
//! promotion poll waits on only where a learner really is catching up.

use vstd::prelude::*;

use crate::admin::custody;
use crate::admin::refusals;
use crate::cluster::{ConsensusError, MachineId};
use crate::status;
use crate::status::{
    ADDRESS_CONFLICT, ENDPOINT_UNVERIFIED, HISTORY_CONFLICT, IDENTITY_RETIRED, KEY_UNAVAILABLE,
    LEARNER_BEHIND, MACHINE_ADDRESS_CONFLICT, MACHINE_IDENTITY_CONFLICT, NEW_ALREADY_VOTER,
    NO_KEY_HOLDER, NO_REMOVABLE_PEER, QUORUM_AT_RISK, VOTER_SET_FULL,
};

verus! {

// ---------------------------------------------------------------------------
// The marker the promotion poll waits on
// ---------------------------------------------------------------------------

/// A message that begins otherwise does not carry the marker.
proof fn begins_otherwise(message: Seq<char>)
    requires
        message.len() > 0,
        message[0] != 'l',
    ensures
        !status::marked(message, LEARNER_BEHIND@),
{
    reveal_strlit("learner-behind");
    let h = LEARNER_BEHIND@ + seq![':'];
    if status::marked(message, LEARNER_BEHIND@) {
        assert(message.subrange(0, h.len() as int)[0] == h[0]);
    }
}

/// Of the failures of the consensus seam, a learner that is still catching up
/// is the only one that reads as a catch-up wait, whatever a refusal quotes.
pub proof fn only_catch_up_reads_as_behind(err: ConsensusError)
    ensures
        refusals::reads_as_behind(refusals::consensus_refusal(err)) <==> err
            is LearnerNotCaughtUp,
{
    let m = refusals::consensus_refusal(err).message;
    reveal_strlit("not the leader; current leader is node ");
    reveal_strlit("not the leader; no leader currently known (election in progress) — retry");
    reveal_strlit("address-conflict");
    reveal_strlit("voter-set-full");
    reveal_strlit("no-removable-peer");
    reveal_strlit("no-key-holder");
    reveal_strlit("quorum-at-risk");
    reveal_strlit("new-already-voter");
    match err {
        ConsensusError::LearnerNotCaughtUp { .. } => {
            reveal_strlit("learner-behind");
            reveal_strlit(": learner is ");
            assert(m.subrange(0, 15) =~= LEARNER_BEHIND@ + seq![':']);
        },
        ConsensusError::NotLeader { .. } => begins_otherwise(m),
        ConsensusError::AddressConflict { .. } => {
            assert(m[0] == ADDRESS_CONFLICT@[0]);
            begins_otherwise(m);
        },
        ConsensusError::VoterSetFull { .. } => {
            assert(m[0] == VOTER_SET_FULL@[0]);
            begins_otherwise(m);
        },
        ConsensusError::NoRemovablePeer { .. } => {
            assert(m[0] == NO_REMOVABLE_PEER@[0]);
            begins_otherwise(m);
        },
        ConsensusError::NoKeyHolder => {
            assert(m[0] == NO_KEY_HOLDER@[0]);
            begins_otherwise(m);
        },
        ConsensusError::QuorumAtRisk { .. } => {
            assert(m[0] == QUORUM_AT_RISK@[0]);
            begins_otherwise(m);
        },
        ConsensusError::NewAlreadyVoter { .. } => {
            assert(m[0] == NEW_ALREADY_VOTER@[0]);
            begins_otherwise(m);
        },
        _ => {},
    }
}

/// The refusals of an admission that breaks the binding of machine to seat
/// never read as a catch-up wait.
pub proof fn binding_refusals_never_read_as_behind(machine: MachineId, node: u64)
    ensures
        !refusals::reads_as_behind(refusals::machine_identity_conflict(machine, node)),
        !refusals::reads_as_behind(refusals::machine_address_conflict(machine, node)),
        !refusals::reads_as_behind(refusals::identity_retired(machine)),
{
    reveal_strlit("machine-identity-conflict");
    reveal_strlit("machine-address-conflict");
    reveal_strlit("identity-retired");
    let a = refusals::machine_identity_conflict(machine, node).message;
    let b = refusals::machine_address_conflict(machine, node).message;
    let c = refusals::identity_retired(machine).message;
    assert(a[0] == MACHINE_IDENTITY_CONFLICT@[0]);
    assert(b[0] == MACHINE_ADDRESS_CONFLICT@[0]);
    assert(c[0] == IDENTITY_RETIRED@[0]);
    begins_otherwise(a);
    begins_otherwise(b);
    begins_otherwise(c);
}

/// An endpoint that could not be verified, a key that could not be read and a
/// request from another history never read as a catch-up wait, whatever
/// detail they quote.
pub proof fn quoted_details_never_read_as_behind(
    detail: Seq<char>,
    candidate: u64,
    incoming: Seq<u8>,
    stamped: Seq<u8>,
)
    ensures
        !refusals::reads_as_behind(refusals::endpoint_unverified(detail)),
        !refusals::reads_as_behind(custody::keyless_refusal(candidate, detail)),
        !refusals::reads_as_behind(refusals::history_conflict(incoming, stamped)),
{
    reveal_strlit("endpoint-unverified");
    reveal_strlit("key-unavailable");
    reveal_strlit("history-conflict");
    let a = refusals::endpoint_unverified(detail).message;
    let b = custody::keyless_refusal(candidate, detail).message;
    let c = refusals::history_conflict(incoming, stamped).message;
    assert(a[0] == ENDPOINT_UNVERIFIED@[0]);
    assert(b[0] == KEY_UNAVAILABLE@[0]);
    assert(c[0] == HISTORY_CONFLICT@[0]);
    begins_otherwise(a);
    begins_otherwise(b);
    begins_otherwise(c);
}

// ---------------------------------------------------------------------------
// One marker at the head
// ---------------------------------------------------------------------------

/// Whether a marker is usable as one: it holds no colon.
pub open spec fn colon_free(marker: Seq<char>) -> bool {
    forall|i: int| 0 <= i < marker.len() ==> #[trigger] marker[i] != ':'
}

/// A message carries at most one marker: two that both head it are the same.
pub proof fn one_marker(message: Seq<char>, m1: Seq<char>, m2: Seq<char>)
    requires
        colon_free(m1),
        colon_free(m2),
        status::marked(message, m1),
        status::marked(message, m2),
    ensures
        m1 == m2,
{
    let h1 = m1 + seq![':'];
    let h2 = m2 + seq![':'];
    assert(forall|i: int| 0 <= i < h1.len() ==> h1[i] == message.subrange(0, h1.len() as int)[i]);
    assert(forall|i: int| 0 <= i < h2.len() ==> h2[i] == message.subrange(0, h2.len() as int)[i]);
    if m1.len() < m2.len() {
        assert(h1[m1.len() as int] == ':');
        assert(h2[m1.len() as int] == m2[m1.len() as int]);
    } else if m2.len() < m1.len() {
        assert(h2[m2.len() as int] == ':');
        assert(h1[m2.len() as int] == m1[m2.len() as int]);
    }
    assert forall|i: int| 0 <= i < m1.len() implies m1[i] == m2[i] by {
        assert(h1[i] == m1[i] && h2[i] == m2[i]);
    }
    assert(m1 =~= m2);
}

} // verus!
