//! Convergence: what a refusal means to a joiner, whom it takes for the
//! leader, and how long it waits.

use coppice_coordinator::admin::refusals::{
    consensus_error_to_status, endpoint_unverified_status, history_conflict_status,
    identity_retired_status, machine_address_conflict_status, machine_identity_conflict_status,
};
use coppice_coordinator::cluster::{ConsensusError, MachineId};
use coppice_coordinator::config::PacingConfig;
use coppice_coordinator::convergence::classify::{classify, cross_history_refusal, JoinStep};
use coppice_coordinator::convergence::leader::claims_leadership;
use coppice_coordinator::convergence::pacing::jittered;
use coppice_coordinator::status::{has_marker, Status, HISTORY_CONFLICT, KEY_UNAVAILABLE};
use coppice_coordinator::wire::ProbeClusterResponse;

const MACHINE: MachineId = MachineId { id: 0x0f9b2c1e_0000_4000_8000_000000000001 };

#[test]
fn a_full_voter_set_keeps_the_learner_polling() {
    // Not terminal — the learner stays and waits for a
    // `ReplaceVoter` or an evidence-gated removal.
    let status = consensus_error_to_status(&ConsensusError::VoterSetFull {
        node: 7,
        voters: 3,
        cluster_size: 3,
    });
    assert!(matches!(classify(&status), JoinStep::VoterSetFull(_)));
}

#[test]
fn an_address_conflict_is_terminal_and_surfaces_its_message() {
    let status = consensus_error_to_status(&ConsensusError::AddressConflict {
        node: 7,
        current: "a:1".into(),
        requested: "b:2".into(),
    });
    match classify(&status) {
        JoinStep::Refused(message) => assert!(message.contains("a:1"), "{message}"),
        _ => panic!("an address conflict must be terminal for the tick"),
    }
}

#[test]
fn the_machine_binding_conflicts_are_terminal_and_surface_their_messages() {
    // A duplicated identity and a same-pair-new-address
    // re-admission are both operator problems, not things to poll at.
    let machine = MACHINE;
    for status in [
        machine_identity_conflict_status(machine, 7),
        machine_address_conflict_status(machine, 7),
    ] {
        match classify(&status) {
            JoinStep::Refused(message) => {
                assert!(message.contains(&machine.text()), "{message}")
            }
            _ => panic!("a machine-binding conflict must be terminal for the tick"),
        }
    }
}

#[test]
fn a_full_set_with_no_dead_peer_also_keeps_the_learner_polling() {
    // "No removable peer" is the launch-before-terminate
    // steady state — the learner is fine, the seat simply is not free,
    // and it re-offers on the settled interval exactly as for a full
    // voter set. Same for a momentary loss of live-majority evidence.
    for status in [
        consensus_error_to_status(&ConsensusError::NoRemovablePeer {
            node: 7,
            voters: 3,
            cluster_size: 3,
        }),
        consensus_error_to_status(&ConsensusError::QuorumAtRisk {
            live: 1,
            continuing: 3,
        }),
    ] {
        assert!(
            matches!(classify(&status), JoinStep::VoterSetFull(_)),
            "must keep polling: {}",
            status.message()
        );
    }
}

#[test]
fn custody_repair_and_retirement_are_terminal_for_the_tick() {
    // A cluster that cannot keep a confirmed key holder,
    // a leader that cannot read its own key, and an identity retired with
    // its seat are all operator problems — polling resolves none of them.
    let key_unavailable = Status::failed_precondition(format!(
        "{}: this leader cannot read its own CA key (ADR 0037 §4)",
        KEY_UNAVAILABLE
    ));
    for status in [
        consensus_error_to_status(&ConsensusError::NoKeyHolder),
        key_unavailable,
        identity_retired_status(MACHINE),
    ] {
        assert!(
            matches!(classify(&status), JoinStep::Refused(_)),
            "must be terminal for the tick: {}",
            status.message()
        );
    }
}

#[test]
fn an_unknown_node_on_promotion_is_terminal() {
    // Our own AddLearner was refused or reverted — nothing is replicating
    // to us, so polling the promotion would spin forever.
    let status = consensus_error_to_status(&ConsensusError::UnknownNode { node: 7 });
    assert!(matches!(classify(&status), JoinStep::Refused(_)));
}

#[test]
fn a_cross_history_refusal_is_terminal_from_either_side() {
    // Two raft histories never merge, so both detections — the
    // server refusing a mismatched request, and the client's own pre-check
    // before AddLearner — must take the hard-backoff Refused path, never
    // fall through to the fast retry, which would hide this forever.
    let cluster = [0xAAu8; 16];
    let stamped = [0xBBu8; 16];

    let server = history_conflict_status(&cluster, &stamped);
    match classify(&server) {
        JoinStep::Refused(message) => {
            assert!(message.contains(&"aa".repeat(16)), "{message}");
            assert!(message.contains(&"bb".repeat(16)), "{message}");
        }
        _ => panic!("the server's cross-history refusal must be terminal for the tick"),
    }

    // The client-side message wears the same marker, so a status page
    // reads consistently whichever side saw the mismatch first — and so
    // it would classify identically if it ever traveled as a status.
    let client = cross_history_refusal("c1:7071", &cluster, &stamped);
    assert!(
        has_marker(&client, HISTORY_CONFLICT),
        "{client}"
    );
    assert!(matches!(
        classify(&Status::failed_precondition(client)),
        JoinStep::Refused(_)
    ));
}

#[test]
fn leadership_is_claimed_only_by_a_node_naming_itself() {
    let answer = |node_id: Option<u64>, leader_hint: Option<u64>| ProbeClusterResponse {
        cluster_id: "c".into(),
        history_id: vec![0; 16],
        initialized: true,
        node_id,
        leader_hint,
        voters: Vec::new(),
    };
    // The self-claim find_leader validates hints against.
    assert!(claims_leadership(&answer(Some(3), Some(3))));
    // A follower pointing elsewhere is a belief, not evidence.
    assert!(!claims_leadership(&answer(Some(2), Some(3))));
    // No leader known, and no identity at all: neither can claim anything.
    assert!(!claims_leadership(&answer(Some(2), None)));
    assert!(!claims_leadership(&answer(None, None)));
}

#[test]
fn an_unverified_endpoint_is_surfaced_but_keeps_the_fast_cadence() {
    // Transient during fleet boot, permanent when
    // `advertise_addr` is wrong — so it must reach status without paying
    // the hard refusal backoff.
    let status = endpoint_unverified_status("dialing c1:7071 to probe it: refused");
    match classify(&status) {
        JoinStep::EndpointUnverified(message) => {
            assert!(message.contains("c1:7071"), "{message}")
        }
        _ => panic!("an unverified endpoint takes the surfaced-but-fast middle path"),
    }
}

#[test]
fn a_behind_learner_keeps_polling_and_a_redirect_retries() {
    let behind =
        consensus_error_to_status(&ConsensusError::LearnerNotCaughtUp { lag: 12 });
    assert!(matches!(classify(&behind), JoinStep::Learner));

    let not_leader =
        consensus_error_to_status(&ConsensusError::NotLeader { leader: Some(3) });
    assert!(matches!(classify(&not_leader), JoinStep::Retry));

    // An unrecognized refusal must retry, never wedge: the verbs are
    // idempotent, so a wrong guess costs one dial.
    let unknown = Status::unavailable("connection reset".into());
    assert!(matches!(classify(&unknown), JoinStep::Retry));
}

#[test]
fn a_marker_in_a_human_tail_does_not_classify() {
    // The prefix discipline: markers count only at the head of the
    // message, so prose that merely mentions one cannot misroute a tick.
    let status = Status::failed_precondition(
        "the last attempt ended voter-set-full: retrying later".into(),
    );
    assert!(matches!(classify(&status), JoinStep::Retry));
}

#[test]
fn jitter_stays_within_a_quarter_of_the_base() {
    let pacing = PacingConfig::default();
    for base in [
        pacing.probe_interval,
        pacing.settled_interval,
        pacing.refusal_backoff,
    ] {
        let jittered = jittered(base);
        assert!(jittered >= base);
        assert!(jittered.as_nanos() < base.as_nanos() + base.as_nanos() / 4 + 1_000_000);
    }
}
