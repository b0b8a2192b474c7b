//! The admin surface: refusals, the status document, and where it leads.

use coppice_coordinator::admin::authz::{
    deny, require_operator, require_operator_or_machine, Caller,
};
use coppice_coordinator::admin::client::leader_redial_target;
use coppice_coordinator::admin::refusals::{
    consensus_error_to_status, identity_retired_status, is_learner_behind,
};
use coppice_coordinator::admin::render::render_status_json;
use coppice_coordinator::admin::summary::cluster_summary_to_pb;
use coppice_coordinator::cluster::{
    ClusterSummary, ConsensusError, MachineId, MemberSummary, NodeId,
};
use coppice_coordinator::status::{
    has_marker, Code, Status, ADDRESS_CONFLICT, IDENTITY_RETIRED, NOT_AUTHORIZED, NO_KEY_HOLDER,
    NO_REMOVABLE_PEER, QUORUM_AT_RISK, UNKNOWN_NODE, VOTER_SET_FULL,
};
use coppice_coordinator::text::host_part;
use coppice_coordinator::wire::{
    ClusterHealth, ClusterStatusResponse, KeyHolder, MachineBinding, Membership,
    PendingKeyTransfer, RaftMember, ReplicationProgress, VoterConfig,
};

const MACHINE: MachineId = MachineId { id: 0x0f9b2c1e_0000_4000_8000_000000000001 };
const NODE: NodeId = NodeId { id: 0x0f9b2c1e_0000_4000_8000_000000000002 };

#[test]
fn not_leader_maps_to_failed_precondition_naming_leader() {
    let status = consensus_error_to_status(&ConsensusError::NotLeader { leader: Some(7) });
    assert_eq!(status.code(), Code::FailedPrecondition);
    assert!(status.message().contains("node 7"), "{}", status.message());
}

#[test]
fn not_leader_unknown_maps_to_failed_precondition() {
    let status = consensus_error_to_status(&ConsensusError::NotLeader { leader: None });
    assert_eq!(status.code(), Code::FailedPrecondition);
}

#[test]
fn learner_behind_maps_and_is_detected_by_the_poll_predicate() {
    let status = consensus_error_to_status(&ConsensusError::LearnerNotCaughtUp { lag: 42 });
    assert_eq!(status.code(), Code::FailedPrecondition);
    assert!(status.message().contains("42"));
    // The client poll loop must recognize exactly this status.
    assert!(is_learner_behind(&status));
}

#[test]
fn membership_in_progress_maps_to_aborted() {
    let status = consensus_error_to_status(&ConsensusError::MembershipInProgress);
    assert_eq!(status.code(), Code::Aborted);
    assert!(!is_learner_behind(&status));
}

#[test]
fn timeout_maps_to_deadline_exceeded() {
    let status = consensus_error_to_status(&ConsensusError::Timeout);
    assert_eq!(status.code(), Code::DeadlineExceeded);
}

#[test]
fn shutdown_and_fatal_map_to_unavailable_and_internal() {
    assert_eq!(
        consensus_error_to_status(&ConsensusError::Shutdown).code(),
        Code::Unavailable
    );
    assert_eq!(
        consensus_error_to_status(&ConsensusError::Fatal("disk gone".into())).code(),
        Code::Internal
    );
}

#[test]
fn summary_to_pb_canonicalizes_voters_and_members() {
    let summary = ClusterSummary {
        local_id: 2,
        leader: Some(1),
        term: 5,
        last_applied: 100,
        known_committed: 100,
        snapshot_last_index: Some(64),
        members: vec![
            MemberSummary {
                id: 3,
                addr: "c3:7071".into(),
                voter: false,
            },
            MemberSummary {
                id: 1,
                addr: "c1:7071".into(),
                voter: true,
            },
            MemberSummary {
                id: 2,
                addr: "c2:7071".into(),
                voter: true,
            },
        ],
        replication: vec![(1, 100), (3, 40)],
        millis_since_quorum_ack: Some(0),
    };

    let pbm = cluster_summary_to_pb(&summary);
    assert_eq!(pbm.local_node_id, 2);
    assert_eq!(pbm.leader_node_id, Some(1));
    assert_eq!(pbm.term, 5);

    let membership = pbm.membership.expect("membership present");
    // Voters ascending, learners excluded.
    assert_eq!(membership.configs.len(), 1);
    assert_eq!(membership.configs[0].voters, vec![1, 2]);
    // Members ascending by node_id, learners included.
    let ids: Vec<u64> = membership.members.iter().map(|m| m.node_id).collect();
    assert_eq!(ids, vec![1, 2, 3]);

    assert_eq!(pbm.replication.len(), 2);
}

#[test]
fn a_generic_failed_precondition_is_not_a_behind_signal() {
    let status = Status::failed_precondition("not the leader; current leader is node 3".into());
    assert!(!is_learner_behind(&status));
}

/// The membership refusals carry their stable markers and their
/// documented codes — the convergence loop branches on exactly this.
#[test]
fn membership_refusals_carry_their_machine_readable_markers() {
    let unknown = consensus_error_to_status(&ConsensusError::UnknownNode { node: 9 });
    assert_eq!(unknown.code(), Code::NotFound);
    assert!(unknown.message().starts_with(UNKNOWN_NODE));

    let conflict = consensus_error_to_status(&ConsensusError::AddressConflict {
        node: 9,
        current: "a:1".into(),
        requested: "b:2".into(),
    });
    assert_eq!(conflict.code(), Code::FailedPrecondition);
    assert!(conflict.message().starts_with(ADDRESS_CONFLICT));

    let full = consensus_error_to_status(&ConsensusError::VoterSetFull {
        node: 9,
        voters: 3,
        cluster_size: 3,
    });
    assert_eq!(full.code(), Code::FailedPrecondition);
    assert!(full.message().starts_with(VOTER_SET_FULL));
}

/// The custody and evidence refusals carry their own stable
/// markers, and each is distinct: the convergence loop keeps polling on
/// `no-removable-peer` and stops on `no-key-holder`, so a shared marker
/// would be a behaviour change, not a wording one.
#[test]
fn the_custody_and_evidence_refusals_carry_their_markers() {
    let no_peer = consensus_error_to_status(&ConsensusError::NoRemovablePeer {
        node: 9,
        voters: 3,
        cluster_size: 3,
    });
    assert_eq!(no_peer.code(), Code::FailedPrecondition);
    assert!(has_marker(no_peer.message(), NO_REMOVABLE_PEER));

    let no_key = consensus_error_to_status(&ConsensusError::NoKeyHolder);
    assert_eq!(no_key.code(), Code::FailedPrecondition);
    assert!(has_marker(no_key.message(), NO_KEY_HOLDER));

    let quorum = consensus_error_to_status(&ConsensusError::QuorumAtRisk {
        live: 1,
        continuing: 3,
    });
    assert!(has_marker(quorum.message(), QUORUM_AT_RISK));

    // A seat that is not a voter shares the terminal `unknown-node`
    // marker: from the caller's side it is the same wrong-node-id
    // mistake, and no retry corrects either.
    let not_voter = consensus_error_to_status(&ConsensusError::OldNotVoter { node: 9 });
    assert_eq!(not_voter.code(), Code::NotFound);
    assert!(has_marker(not_voter.message(), UNKNOWN_NODE));

    let retired = identity_retired_status(MACHINE);
    assert_eq!(retired.code(), Code::FailedPrecondition);
    assert!(has_marker(retired.message(), IDENTITY_RETIRED));

    // None of them may read as a catch-up wait, or the CLI's promotion
    // poll loop would spin on a hopeless request until its deadline.
    for status in [no_peer, no_key, quorum, not_voter, retired] {
        assert!(
            !is_learner_behind(&status),
            "must not read as a catch-up wait: {}",
            status.message()
        );
    }
}

/// None of the terminal-or-voter-full refusals may look like a learner
/// still catching up: a false positive of `is_learner_behind` polls a hopeless
/// request until the deadline.
#[test]
fn no_new_refusal_is_mistaken_for_a_catch_up_wait() {
    for status in [
        consensus_error_to_status(&ConsensusError::UnknownNode { node: 1 }),
        consensus_error_to_status(&ConsensusError::AddressConflict {
            node: 1,
            current: "a:1".into(),
            requested: "b:2".into(),
        }),
        consensus_error_to_status(&ConsensusError::VoterSetFull {
            node: 1,
            voters: 3,
            cluster_size: 3,
        }),
    ] {
        assert!(
            !is_learner_behind(&status),
            "must not read as a catch-up wait: {}",
            status.message()
        );
    }
}

/// What a refusal quotes does not make it a catch-up wait.
#[test]
fn a_quoted_address_is_not_a_catch_up_wait() {
    let conflict = consensus_error_to_status(&ConsensusError::AddressConflict {
        node: 1,
        current: "learner-behind:1".into(),
        requested: "behind.example:2".into(),
    });
    assert!(!is_learner_behind(&conflict));
    // Nor does the marker under another code.
    assert!(!is_learner_behind(&Status::internal("learner-behind: by 9".into())));
}

fn status_fixture() -> ClusterStatusResponse {
    ClusterStatusResponse {
        local_node_id: 1,
        leader_node_id: Some(1),
        term: 5,
        last_applied_index: 100,
        known_committed_index: 100,
        membership: Some(Membership {
            configs: vec![VoterConfig { voters: vec![1, 2] }],
            members: vec![
                RaftMember {
                    node_id: 1,
                    address: "c1:7071".into(),
                },
                RaftMember {
                    node_id: 2,
                    address: "c2:7071".into(),
                },
                RaftMember {
                    node_id: 3,
                    address: "c3:7071".into(),
                },
            ],
        }),
        replication: vec![ReplicationProgress {
            node_id: 3,
            matched_index: 91,
        }],
        bindings: vec![MachineBinding {
            machine_id: "machine-0f9b2c1e-0000-4000-8000-000000000001".into(),
            node_id: 1,
            address: "c1:7071".into(),
            bound_at_us: 1_700_000_000_000_000,
        }],
        // Two holders, one of them node 4 — a keyed candidate that is not
        // even a member any more (the abandoned-candidate /
        // departed-voter case), which custody accounting must still show.
        key_holders: vec![
            KeyHolder {
                node_id: 1,
                confirmed_at_us: 1_700_000_000_000_000,
            },
            KeyHolder {
                node_id: 4,
                confirmed_at_us: 1_700_000_001_000_000,
            },
        ],
        pending_key_transfers: vec![PendingKeyTransfer {
            node_id: 9,
            intended_at_us: 1_700_000_002_000_000,
        }],
        health: Some(ClusterHealth {
            healthy: true,
            live_voters: 2,
        }),
    }
}

/// `admin status --json` is a scripting contract: this pins
/// the whole shape, including the joins (`role`, `machine_id`, `lag`) and
/// the explicit `null` for an unbound member.
#[test]
fn status_json_shape_is_stable() {
    let rendered = render_status_json(&status_fixture());
    let v: serde_json::Value = serde_json::from_str(&rendered).expect("valid JSON");

    assert_eq!(v["node_id"], 1);
    assert_eq!(v["leader"], 1);
    assert_eq!(v["is_leader"], true);
    assert_eq!(v["term"], 5);
    assert_eq!(v["applied_index"], 100);
    assert_eq!(v["committed_index"], 100);

    let members = v["members"].as_array().expect("members is an array");
    assert_eq!(members.len(), 3);
    assert_eq!(members[0]["node_id"], 1);
    assert_eq!(members[0]["addr"], "c1:7071");
    assert_eq!(members[0]["role"], "voter");
    assert_eq!(
        members[0]["machine_id"],
        "machine-0f9b2c1e-0000-4000-8000-000000000001"
    );
    assert_eq!(members[2]["role"], "learner");
    // An unbound seat is reported as null, never omitted: the key is part
    // of the contract and its absence is the interesting signal.
    assert!(members[2]["machine_id"].is_null());
    assert!(members[2].as_object().unwrap().contains_key("machine_id"));

    let replication = v["replication"].as_array().expect("replication array");
    assert_eq!(replication.len(), 1);
    assert_eq!(replication[0]["node_id"], 3);
    assert_eq!(replication[0]["matched_index"], 91);
    assert_eq!(replication[0]["lag"], 9);

    let bindings = v["bindings"].as_array().expect("bindings array");
    assert_eq!(bindings.len(), 1);
    assert_eq!(bindings[0]["node_id"], 1);
    assert_eq!(bindings[0]["address"], "c1:7071");
    assert_eq!(bindings[0]["bound_at_us"], 1_700_000_000_000_000i64);

    // The leader's redundancy verdict, the same one
    // `?require=healthy` gates on.
    assert_eq!(v["health"]["healthy"], true);
    assert_eq!(v["health"]["live_voters"], 2);

    // Custody accounting: every confirmed holder, with a
    // membership-joined role — including "departed", which is how the
    // abandoned-candidate case becomes visible at all.
    let holders = v["key_holders"].as_array().expect("key_holders array");
    assert_eq!(holders.len(), 2);
    assert_eq!(holders[0]["node_id"], 1);
    assert_eq!(holders[0]["role"], "voter");
    assert_eq!(holders[0]["confirmed_at_us"], 1_700_000_000_000_000i64);
    assert_eq!(holders[1]["node_id"], 4);
    assert_eq!(holders[1]["role"], "departed");

    // Replacement is never inferred.
    assert!(v.get("superseded").is_none());
}

/// A follower reports no replication, `is_leader: false`, and a `null`
/// health verdict — never a cached or fabricated one — with the keys
/// still present so a script need not branch on their existence.
#[test]
fn status_json_on_a_follower_has_empty_replication_and_unknown_health() {
    let mut fixture = status_fixture();
    fixture.local_node_id = 2;
    fixture.replication.clear();
    fixture.health = None;
    let v: serde_json::Value =
        serde_json::from_str(&render_status_json(&fixture)).expect("valid JSON");
    assert_eq!(v["is_leader"], false);
    assert_eq!(v["replication"].as_array().expect("array").len(), 0);
    let health = v["health"].as_object().expect("health object");
    assert!(health["healthy"].is_null());
    assert!(health["live_voters"].is_null());
}

/// No leader at all: `leader` is `null` and `is_leader` is false, rather
/// than the key vanishing.
#[test]
fn status_json_reports_an_unknown_leader_as_null() {
    let mut fixture = status_fixture();
    fixture.leader_node_id = None;
    let v: serde_json::Value =
        serde_json::from_str(&render_status_json(&fixture)).expect("valid JSON");
    assert!(v["leader"].is_null());
    assert_eq!(v["is_leader"], false);
}

/// The retarget decision: a follower's answer — no health,
/// a leader named elsewhere — is re-dialed at the leader's membership
/// address, and nothing else is.
#[test]
fn a_followers_answer_names_the_leader_to_redial() {
    let mut fixture = status_fixture();
    fixture.local_node_id = 2;
    fixture.health = None;
    assert_eq!(
        leader_redial_target(&fixture).as_deref(),
        Some("c1:7071"),
        "a healthless follower answer retargets at the leader's membership address"
    );
}

#[test]
fn a_leaders_answer_is_never_redialed() {
    // Names itself and carries health: already authoritative.
    let fixture = status_fixture();
    assert_eq!(leader_redial_target(&fixture), None);

    // Even a leader whose health verdict is (still) absent is not
    // re-dialed — dialing yourself again cannot add information.
    let mut fixture = status_fixture();
    fixture.health = None;
    assert_eq!(leader_redial_target(&fixture), None);

    // And an answer that carries health is authoritative regardless of
    // who it came from — health is leader-only by construction.
    let mut fixture = status_fixture();
    fixture.local_node_id = 2;
    assert_eq!(leader_redial_target(&fixture), None);
}

#[test]
fn an_unknown_or_unresolvable_leader_is_not_redialed() {
    // No leader at all: nothing to dial, render what we have.
    let mut fixture = status_fixture();
    fixture.local_node_id = 2;
    fixture.leader_node_id = None;
    fixture.health = None;
    assert_eq!(leader_redial_target(&fixture), None);

    // A named leader with no address in the follower's membership view:
    // unresolvable, so the follower's answer stands (health null, never
    // fabricated).
    let mut fixture = status_fixture();
    fixture.local_node_id = 2;
    fixture.leader_node_id = Some(99);
    fixture.health = None;
    assert_eq!(leader_redial_target(&fixture), None);
}

#[test]
fn the_two_gates_let_through_the_profiles_they_name() {
    let operator = Caller::Operator { cn: "ops".into() };
    let machine = Caller::Machine(MachineId { id: 7 });
    let agent = Caller::Agent(NodeId { id: 9 });
    assert!(require_operator(operator.clone(), "RemoveNode").is_ok());
    assert!(require_operator(machine.clone(), "RemoveNode").is_err());
    assert!(require_operator_or_machine(operator, "AddLearner").is_ok());
    assert!(require_operator_or_machine(machine, "AddLearner").is_ok());
    let refused = require_operator_or_machine(agent, "AddLearner").unwrap_err();
    assert_eq!(refused.code(), Code::PermissionDenied);
}

#[test]
fn the_host_half_ends_at_the_last_colon() {
    assert_eq!(host_part("c1.example.com:7071"), "c1.example.com");
    assert_eq!(host_part("[::1]:7071"), "[::1]");
    assert_eq!(host_part("c1"), "c1");
}

/// The refusal message names the verb and the presented profile, because
/// those two together are the whole diagnosis.
#[test]
fn a_denial_names_the_verb_the_profile_and_the_adr() {
    let caller = Caller::Agent(NODE);
    let status = deny("RemoveNode", &caller);
    assert_eq!(status.code(), Code::PermissionDenied);
    let msg = status.message();
    assert!(msg.starts_with(NOT_AUTHORIZED), "{msg}");
    assert!(msg.contains("RemoveNode"), "{msg}");
    assert!(msg.contains("agent"), "{msg}");
    assert!(msg.contains("ADR 0037 §7"), "{msg}");
    // A denial is terminal; it must never read as a catch-up wait.
    assert!(!is_learner_behind(&status));
}
