//! The admin verbs, step by step.

use coppice_coordinator::admin::authz::{
    authorize, caller, AdminService, Binding, Caller, LeafCheck, Profile, Replicated, Seam, Verb,
};
use coppice_coordinator::admin::client::{
    choose_target, done_line, learn_history, output, promote_voter, resolved_status, route, run_cli,
    status_to_error, AdminCall, PollStep, Route,
};
use coppice_coordinator::admin::custody::{
    ensure_key_transferred, on_confirmation_applied, on_confirmation_visible, on_intent_applied,
    on_intent_visible, on_key_looked_for, on_key_matched, on_key_sent, on_key_written, on_own_key,
    on_replicated_ca, replicated_ca, CaWait, KeySent, KeyStep, Latch, ReceiptStep, TRANSFER_BEFORE_CONFIRM,
    TRANSFER_STOPPED,
};
use coppice_coordinator::admin::endpoint::{
    bind_machine, Applied, EndpointProbe, Rejection, ServingLeaf, COORDINATOR_OU,
};
use coppice_coordinator::admin::membership::{
    on_binding_visible, on_bound, on_endpoint_probe, on_keyed, on_promotion_plan, on_rebound,
    on_replacement_plan, on_repoint_verified, on_repointed, on_serving_leaf, reply_of,
    AddLearnerRequest, AdmissionStep, Change, ChangeStep, PromotionPlan, ReplacementPlan, RepointStep,
    SetNodeAddressRequest,
};
use coppice_coordinator::admin::render::{render_status, render_status_json};
use coppice_coordinator::admin::summary::HealthVerdict;
use coppice_coordinator::admin::tokens::{
    enroll_error_to_status, on_identity_revoked, on_issued, on_minted, on_secret_hashed,
    on_token_revoked, Field, Hashing, MintEnrollTokenRequest,
};
use coppice_coordinator::cli::AdminVerb;
use coppice_coordinator::cluster::{
    ClusterSummary, ConsensusError, MachineId, MemberSummary, NodeId,
};
use coppice_coordinator::config::BackendKind;
use coppice_coordinator::enroll::issue::{
    EnrollError, EnrollRole, EnrollToken, Enrolled, RevokedIdentity,
};
use coppice_coordinator::formation::phase::PhaseState;
use coppice_coordinator::formation::startup::FormationMarks;
use coppice_coordinator::status::{
    has_marker, Code, Status, ENDPOINT_UNVERIFIED, HISTORY_CONFLICT, IDENTITY_RETIRED,
    KEY_UNAVAILABLE, LEARNER_BEHIND, MACHINE_ADDRESS_CONFLICT, MACHINE_IDENTITY_CONFLICT,
    NOT_AUTHORIZED, QUORUM_AT_RISK, UNKNOWN_NODE,
};
use coppice_coordinator::time::Duration;
use coppice_coordinator::wire::ProbeClusterResponse;

const M1: MachineId = MachineId { id: 0x11 };
const M2: MachineId = MachineId { id: 0x12 };
const M3: MachineId = MachineId { id: 0x13 };
const NODE: NodeId = NodeId { id: 0x21 };

fn history() -> Vec<u8> {
    vec![0xAA; 16]
}

fn operator() -> Caller {
    Caller::Operator { cn: "alice".into() }
}

fn binding(machine: MachineId, raft_node_id: u64, address: &str) -> Binding {
    Binding { machine, raft_node_id, address: address.into(), bound_at_us: 5 }
}

/// A leader, node 1, with a voter 2; machine 1 sits on node 1, machine 2 on
/// node 2.
fn seam() -> Seam {
    Seam {
        history_id: history(),
        summary: ClusterSummary {
            local_id: 1,
            leader: Some(1),
            term: 3,
            last_applied: 10,
            known_committed: 10,
            snapshot_last_index: None,
            members: vec![
                MemberSummary { id: 1, addr: "c1:7071".into(), voter: true },
                MemberSummary { id: 2, addr: "c2:7071".into(), voter: true },
            ],
            replication: vec![(1, 10), (2, 9)],
            millis_since_quorum_ack: Some(1),
        },
        state: Replicated {
            bindings: vec![binding(M1, 1, "c1:7071"), binding(M2, 2, "c2:7071")],
            key_confirmations: vec![(1, 7)],
            key_transfer_intents: vec![(9, 8)],
            ca_pem: Some(b"CA".to_vec()),
        },
    }
}

fn service(seam: Seam) -> AdminService {
    AdminService { seam: Some(seam), disk_ca: Some(b"DISK".to_vec()) }
}

fn follower() -> Seam {
    let mut s = seam();
    s.summary.local_id = 2;
    s
}

fn refused<T: std::fmt::Debug>(r: Result<T, Status>) -> (Code, String) {
    let s = r.expect_err("a refusal");
    (s.code(), s.message().to_string())
}

// ---- Callers and the refusal matrix ---------------------------------------

#[test]
fn a_certificate_makes_a_caller() {
    assert!(matches!(
        caller(LeafCheck::Verified(Profile::Coordinator(M1))),
        Ok(Caller::Machine(M1))
    ));
    assert!(matches!(caller(LeafCheck::Verified(Profile::Agent(NODE))), Ok(Caller::Agent(NODE))));
    assert!(matches!(
        caller(LeafCheck::Verified(Profile::Operator { cn: "alice".into() })),
        Ok(Caller::Operator { cn }) if cn == "alice"
    ));
    assert_eq!(refused(caller(LeafCheck::Missing)).0, Code::Unauthenticated);
    let (code, text) = refused(caller(LeafCheck::Unverified));
    assert_eq!(code, Code::Unauthenticated);
    assert_eq!(text, "client certificate does not verify against the cluster CA");
}

#[test]
fn the_matrix_holds_every_profile() {
    let verbs = [
        (Verb::AddLearner, true),
        (Verb::PromoteVoter, true),
        (Verb::ReplaceVoter, false),
        (Verb::TransferCaKey, true),
        (Verb::RemoveNode, false),
        (Verb::SetNodeAddress, false),
        (Verb::ClusterStatus, true),
        (Verb::ProbeCluster, true),
        (Verb::MintEnrollToken, false),
        (Verb::ListEnrollTokens, false),
        (Verb::RevokeEnrollToken, false),
        (Verb::RevokeIdentity, false),
        (Verb::ForwardEnroll, true),
        (Verb::RenewCoordinator, true),
    ];
    for (verb, machine) in verbs {
        assert_eq!(authorize(verb, &Caller::Machine(M1)).is_ok(), machine, "{verb:?}");
        assert_eq!(
            authorize(verb, &operator()).is_ok(),
            verb != Verb::RenewCoordinator,
            "{verb:?}"
        );
        let (code, text) = refused(authorize(verb, &Caller::Agent(NODE)));
        assert_eq!(code, Code::PermissionDenied);
        assert!(text.starts_with(NOT_AUTHORIZED), "{text}");
        assert!(text.contains(verb.name()), "{text}");
    }
    let (_, text) = refused(authorize(Verb::RenewCoordinator, &operator()));
    assert!(text.contains("operator \"alice\""), "{text}");
}

#[test]
fn a_verb_is_barred_by_caller_then_formation_then_history() {
    let unformed = AdminService::unformed(None);
    assert_eq!(
        refused(unformed.remove_node(&Caller::Machine(M1), &history(), 3)).0,
        Code::PermissionDenied
    );
    let (code, text) = refused(unformed.remove_node(&operator(), &history(), 3));
    assert_eq!(code, Code::FailedPrecondition);
    assert!(text.contains("has not formed a cluster"), "{text}");

    let formed = service(seam());
    let (code, text) = refused(formed.remove_node(&operator(), &vec![1, 2, 3], 3));
    assert_eq!(code, Code::InvalidArgument);
    assert!(text.contains("16 bytes, got 3"), "{text}");
    let (_, text) = refused(formed.remove_node(&operator(), &vec![0xBB; 16], 3));
    assert!(has_marker(&text, HISTORY_CONFLICT), "{text}");
    assert_eq!(formed.remove_node(&operator(), &history(), 3).expect("admitted"), 3);
}

#[test]
fn callers_are_judged_by_the_replicated_authority_first() {
    assert_eq!(service(seam()).authorizing_ca().expect("a bundle"), b"CA".to_vec());
    let mut unrecorded = seam();
    unrecorded.state.ca_pem = None;
    assert_eq!(service(unrecorded).authorizing_ca().expect("a bundle"), b"DISK".to_vec());
    let mut none = AdminService::unformed(None);
    assert!(refused(none.authorizing_ca()).1.contains("no TLS material"));
    none.attach(seam(), b"NEW".to_vec());
    assert!(none.formed().is_ok());
    assert_eq!(none.disk_ca, Some(b"NEW".to_vec()));
}

// ---- Admission ------------------------------------------------------------

fn add(node_id: u64, address: &str) -> AddLearnerRequest {
    AddLearnerRequest { history_id: history(), node_id, address: address.into() }
}

fn leaf(machine: Option<MachineId>) -> Result<ServingLeaf, String> {
    Ok(ServingLeaf {
        org_unit: Some(COORDINATOR_OU.into()),
        common_name: Some("cn".into()),
        machine,
    })
}

#[test]
fn an_exact_replay_is_answered_without_a_dial() {
    for s in [seam(), follower()] {
        assert!(matches!(
            service(s.clone()).add_learner(&Caller::Machine(M2), &add(2, "c2:7071")),
            AdmissionStep::Reply(Ok(()))
        ));
        assert!(matches!(
            service(s).add_learner(&operator(), &add(2, "c2:7071")),
            AdmissionStep::Reply(Ok(()))
        ));
    }
}

#[test]
fn a_leader_verifies_a_new_seat_and_a_seat_without_its_binding() {
    assert!(matches!(
        service(seam()).add_learner(&Caller::Machine(M3), &add(3, "c3:7071")),
        AdmissionStep::ReadServingLeaf { address } if address == "c3:7071"
    ));
    // Seated, but the binding is another machine's.
    assert!(matches!(
        service(seam()).add_learner(&Caller::Machine(M3), &add(2, "c2:7071")),
        AdmissionStep::ReadServingLeaf { address } if address == "c2:7071"
    ));
    // Another address for a seat: the commit refuses it for good.
    assert!(matches!(
        service(seam()).add_learner(&Caller::Machine(M2), &add(2, "elsewhere:1")),
        AdmissionStep::Admit { node_id: 2, address } if address == "elsewhere:1"
    ));
    assert!(matches!(
        service(follower()).add_learner(&Caller::Machine(M3), &add(3, "c3:7071")),
        AdmissionStep::Admit { node_id: 3, address } if address == "c3:7071"
    ));
}

#[test]
fn an_endpoint_must_serve_the_machine_that_asks() {
    let req = add(3, "c3:7071");
    assert!(matches!(
        on_serving_leaf(&Caller::Machine(M3), &req, leaf(Some(M3))),
        AdmissionStep::ProbeEndpoint { machine: M3, address } if address == "c3:7071"
    ));
    // An operator claims no machine: whoever serves there is bound.
    assert!(matches!(
        on_serving_leaf(&operator(), &req, leaf(Some(M2))),
        AdmissionStep::ProbeEndpoint { machine: M2, address } if address == "c3:7071"
    ));
    let refusal = |step| match step {
        AdmissionStep::Reply(r) => refused(r).1,
        other => panic!("{other:?}"),
    };
    for (read, words) in [
        (Err("refused".to_string()), "could not read the serving certificate at c3:7071"),
        (
            Ok(ServingLeaf {
                org_unit: Some("agents".into()),
                common_name: None,
                machine: Some(M3),
            }),
            "does not serve a coordinator-profile certificate (OU Some(\"agents\"))",
        ),
        (leaf(None), "whose CN Some(\"cn\") is not a machine identity"),
        (leaf(Some(M2)), "not the claimed machine-"),
    ] {
        let text = refusal(on_serving_leaf(&Caller::Machine(M3), &req, read));
        assert!(has_marker(&text, ENDPOINT_UNVERIFIED), "{text}");
        assert!(text.contains(words), "{text}");
    }
}

#[test]
fn an_endpoint_must_report_the_claimed_node() {
    let req = add(3, "c3:7071");
    assert!(matches!(
        on_endpoint_probe(&req, M3, &EndpointProbe::Answered(Some(3))),
        AdmissionStep::Bind { machine: M3, node_id: 3, address } if address == "c3:7071"
    ));
    for (probe, words) in [
        (EndpointProbe::Undialled("e".into()), "dialing c3:7071 to probe it: e"),
        (EndpointProbe::Refused("e".into()), "probing c3:7071: e"),
        (EndpointProbe::Answered(None), "reports raft node None, not the claimed 3"),
        (EndpointProbe::Answered(Some(4)), "reports raft node Some(4), not the claimed 3"),
    ] {
        match on_endpoint_probe(&req, M3, &probe) {
            AdmissionStep::Reply(r) => {
                let (_, text) = refused(r);
                assert!(text.contains(words), "{text}");
            }
            other => panic!("{other:?}"),
        }
    }
}

#[test]
fn a_binding_is_visible_before_the_admission_commits() {
    let req = add(3, "c3:7071");
    assert!(matches!(on_bound(&req, M3, Ok(Applied::At(44))), AdmissionStep::AwaitVisible(44)));
    assert!(matches!(
        on_binding_visible(&req, Ok(())),
        AdmissionStep::Admit { node_id: 3, address } if address == "c3:7071"
    ));
    assert!(matches!(
        on_binding_visible(&req, Err(ConsensusError::Timeout)),
        AdmissionStep::Reply(Err(_))
    ));
    assert!(reply_of(Ok(())).is_ok());
}

#[test]
fn a_rejected_binding_says_why() {
    let reject = |kind| Ok(Applied::Rejected { kind, reason: "because".into() });
    for (kind, marker) in [
        (Rejection::MachineIdentityConflict, MACHINE_IDENTITY_CONFLICT),
        (Rejection::MachineAddressConflict, MACHINE_ADDRESS_CONFLICT),
        (Rejection::MachineIdentityRetired, IDENTITY_RETIRED),
    ] {
        let (_, text) = refused(bind_machine(M3, 3, reject(kind)));
        assert!(has_marker(&text, marker), "{text}");
    }
    let (_, text) = refused(bind_machine(M3, 3, reject(Rejection::Other)));
    assert_eq!(text, "machine-identity binding rejected: because");
}

// ---- Promotion and replacement ----------------------------------------------

#[test]
fn a_machine_promotes_only_its_own_seat() {
    let s = service(seam());
    assert!(matches!(
        s.promote_voter(&Caller::Machine(M2), &history(), 2),
        ChangeStep::PlanPromotion { node: 2 }
    ));
    assert!(matches!(
        s.promote_voter(&operator(), &history(), 1),
        ChangeStep::PlanPromotion { node: 1 }
    ));
    let text = |step| match step {
        ChangeStep::Reply(r) => refused(r).1,
        other => panic!("{other:?}"),
    };
    let other = text(s.promote_voter(&Caller::Machine(M2), &history(), 1));
    assert!(other.contains("is bound to node 2"), "{other}");
    let unbound = text(s.promote_voter(&Caller::Machine(M3), &history(), 3));
    assert!(unbound.contains("holds no machine-identity binding"), "{unbound}");
}

#[test]
fn a_change_is_planned_then_keyed_then_committed() {
    assert!(matches!(
        on_promotion_plan(4, &Ok(PromotionPlan::AlreadyVoter)),
        ChangeStep::Reply(Ok(()))
    ));
    // What the plan folds out is carried through the key to the commit.
    for fold_out in [None, Some(2)] {
        let (candidate, change) = match on_promotion_plan(
            4,
            &Ok(PromotionPlan::Ready { evidence_removal: fold_out }),
        ) {
            ChangeStep::EnsureKey { candidate, change } => (candidate, change),
            other => panic!("{other:?}"),
        };
        assert_eq!(candidate, 4);
        match on_keyed(Ok(()), change) {
            ChangeStep::Commit(Change::Promote { node: 4, fold_out: carried }) => {
                assert_eq!(carried, fold_out)
            }
            other => panic!("{other:?}"),
        }
    }
    assert!(matches!(
        on_keyed(
            Err(Status::internal("no".into())),
            Change::Promote { node: 4, fold_out: None }
        ),
        ChangeStep::Reply(Err(_))
    ));
    assert!(matches!(
        service(seam()).replace_voter(&operator(), &history(), 2, 5),
        ChangeStep::PlanReplacement { old: 2, new: 5 }
    ));
    assert!(matches!(
        on_replacement_plan(2, 5, &Ok(ReplacementPlan::Settled)),
        ChangeStep::Reply(Ok(()))
    ));
    // The key goes to the incoming voter.
    assert!(matches!(
        on_replacement_plan(2, 5, &Ok(ReplacementPlan::Ready)),
        ChangeStep::EnsureKey { candidate: 5, change: Change::Replace { old: 2, new: 5 } }
    ));
    assert!(matches!(
        on_keyed(Ok(()), Change::Replace { old: 2, new: 5 }),
        ChangeStep::Commit(Change::Replace { old: 2, new: 5 })
    ));
    assert!(matches!(
        on_replacement_plan(2, 5, &Err(ConsensusError::NewAlreadyVoter { node: 5 })),
        ChangeStep::Reply(Err(_))
    ));
}

// ---- Repointing ---------------------------------------------------------------

fn repoint(node_id: u64, address: &str) -> SetNodeAddressRequest {
    SetNodeAddressRequest { history_id: history(), node_id, address: address.into() }
}

#[test]
fn repointing_is_done_only_when_both_facts_hold() {
    let s = service(seam());
    assert!(matches!(
        s.set_node_address(&operator(), &repoint(2, "c2:7071")),
        RepointStep::Reply(Ok(()))
    ));
    assert!(matches!(
        s.set_node_address(&operator(), &repoint(2, "new:1")),
        RepointStep::Verify { machine: M2, address } if address == "new:1"
    ));
    // Membership moved, the binding did not: running it again repairs it.
    let mut half = seam();
    half.summary.members[1].addr = "new:1".into();
    assert!(matches!(
        service(half).set_node_address(&operator(), &repoint(2, "new:1")),
        RepointStep::Verify { machine: M2, address } if address == "new:1"
    ));
    assert!(matches!(
        service(follower()).set_node_address(&operator(), &repoint(1, "new:1")),
        RepointStep::Commit { node_id: 1, address } if address == "new:1"
    ));
    match s.set_node_address(&operator(), &repoint(9, "new:1")) {
        RepointStep::Reply(r) => assert!(has_marker(&refused(r).1, UNKNOWN_NODE)),
        other => panic!("{other:?}"),
    }
    let mut unbound = seam();
    unbound.state.bindings.pop();
    match service(unbound).set_node_address(&operator(), &repoint(2, "new:1")) {
        RepointStep::Reply(r) => assert!(refused(r).1.contains("carries no machine-identity")),
        other => panic!("{other:?}"),
    }
}

#[test]
fn a_repointed_binding_follows_its_seat() {
    let req = repoint(2, "new:1");
    assert!(matches!(
        on_repoint_verified(&req, M2, leaf(Some(M2)), &EndpointProbe::Answered(Some(2))),
        RepointStep::Commit { node_id: 2, address } if address == "new:1"
    ));
    assert!(matches!(
        on_repoint_verified(&req, M2, leaf(Some(M3)), &EndpointProbe::Answered(Some(2))),
        RepointStep::Reply(Err(_))
    ));
    assert!(matches!(
        on_repoint_verified(&req, M2, leaf(Some(M2)), &EndpointProbe::Answered(Some(3))),
        RepointStep::Reply(Err(_))
    ));
    assert!(matches!(
        on_repointed(&seam(), &req, Ok(())),
        RepointStep::Rebind { node_id: 2, address } if address == "new:1"
    ));
    assert!(matches!(
        on_repointed(&seam(), &repoint(9, "x:1"), Ok(())),
        RepointStep::Reply(Ok(()))
    ));
    assert!(matches!(on_rebound(&req, Ok(Applied::At(5))), RepointStep::AwaitVisible(5)));
    match on_rebound(&req, Ok(Applied::Rejected { kind: Rejection::Other, reason: "no".into() })) {
        RepointStep::Reply(r) => assert_eq!(
            refused(r).1,
            "membership now dials node 2 at new:1, but repointing its machine binding was \
             rejected: no"
        ),
        other => panic!("{other:?}"),
    }
}

// ---- Custody --------------------------------------------------------------------

#[test]
fn a_confirmed_candidate_is_not_keyed_again() {
    assert!(matches!(ensure_key_transferred(&seam(), 1), KeyStep::Reply(Ok(()))));
    let mut foreign = seam();
    foreign.state.ca_pem = None;
    assert!(matches!(ensure_key_transferred(&foreign, 2), KeyStep::Reply(Ok(()))));
    assert!(matches!(
        ensure_key_transferred(&seam(), 2),
        KeyStep::LoadOwnKey { ca_pem } if ca_pem == b"CA"
    ));
}

#[test]
fn the_intent_is_visible_before_the_key_is_sent() {
    let s = seam();
    let address = match on_own_key(&s, 2, Ok(())) {
        KeyStep::RecordIntent { candidate: 2, address } => address,
        other => panic!("{other:?}"),
    };
    assert_eq!(address, "c2:7071");
    let (address, index) = match on_intent_applied(2, address, Ok(Applied::At(20))) {
        KeyStep::AwaitIntent { address, index } => (address, index),
        other => panic!("{other:?}"),
    };
    assert_eq!(index, 20);
    match on_intent_visible(&s, address, Ok(())) {
        KeyStep::Send { address, history_id } => {
            assert_eq!(address, "c2:7071");
            assert_eq!(history_id, history());
        }
        other => panic!("{other:?}"),
    }
    assert!(matches!(
        on_key_sent(2, "c2:7071", KeySent::Acknowledged, Ok(())),
        KeyStep::Confirm { candidate: 2 }
    ));
    assert!(matches!(
        on_confirmation_applied(2, Ok(Applied::At(21))),
        KeyStep::AwaitConfirmation(21)
    ));
    assert!(matches!(on_confirmation_visible(Ok(())), KeyStep::Reply(Ok(()))));
}

#[test]
fn a_recorded_intent_is_not_recorded_twice() {
    let mut s = seam();
    s.state.key_transfer_intents.push((2, 1));
    assert!(matches!(on_own_key(&s, 2, Ok(())), KeyStep::Send { address, history_id }
        if address == "c2:7071" && history_id == history()));
}

#[test]
fn each_failed_stage_ends_the_transfer() {
    let text = |step| match step {
        KeyStep::Reply(r) => refused(r).1,
        other => panic!("{other:?}"),
    };
    assert!(has_marker(&text(on_own_key(&seam(), 2, Err("enoent".into()))), KEY_UNAVAILABLE));
    assert!(has_marker(&text(on_own_key(&seam(), 9, Ok(()))), UNKNOWN_NODE));
    let rejected =
        || Ok(Applied::Rejected { kind: Rejection::Other, reason: "no".into() });
    assert_eq!(
        text(on_intent_applied(2, "a".into(), rejected())),
        "recording the key-transfer intent for node 2 was rejected: no"
    );
    assert!(text(on_confirmation_applied(2, rejected())).ends_with("was rejected: no"));
    for (sent, words) in [
        (KeySent::Undialled("e".into()), "dialing a to transfer the CA key: e"),
        (KeySent::Refused("e".into()), "transferring the CA key to a: e"),
    ] {
        let t = text(on_key_sent(2, "a", sent, Ok(())));
        assert!(t.contains(words), "{t}");
    }
}

#[test]
fn a_crash_point_fires_once_and_only_for_its_name() {
    let mut latch = Latch::new();
    let armed = Some(TRANSFER_BEFORE_CONFIRM.to_string());
    assert!(latch.fire(&None, TRANSFER_BEFORE_CONFIRM, TRANSFER_STOPPED).is_ok());
    assert!(latch.fire(&Some("other".into()), TRANSFER_BEFORE_CONFIRM, TRANSFER_STOPPED).is_ok());
    let crash = latch.fire(&armed, TRANSFER_BEFORE_CONFIRM, TRANSFER_STOPPED);
    match on_key_sent(2, "a", KeySent::Acknowledged, crash) {
        KeyStep::Reply(r) => assert_eq!(refused(r), (Code::Internal, TRANSFER_STOPPED.into())),
        other => panic!("{other:?}"),
    }
    assert!(latch.fire(&armed, TRANSFER_BEFORE_CONFIRM, TRANSFER_STOPPED).is_ok());
}

#[test]
fn only_the_leaders_machine_pushes_a_key() {
    let s = service(follower());
    assert!(matches!(
        s.transfer_ca_key(&Caller::Machine(M1), &history()),
        ReceiptStep::AwaitCa
    ));
    let text = |step| match step {
        ReceiptStep::Reply(r) => refused(r).1,
        other => panic!("{other:?}"),
    };
    assert!(text(s.transfer_ca_key(&Caller::Machine(M2), &history())).contains("bound to node 2"));
    assert!(text(s.transfer_ca_key(&Caller::Machine(M3), &history())).contains("bound to no seat"));
    assert!(text(s.transfer_ca_key(&operator(), &history())).contains("leader-to-candidate only"));
    let mut leaderless = follower();
    leaderless.summary.leader = None;
    assert!(text(service(leaderless).transfer_ca_key(&Caller::Machine(M1), &history()))
        .contains("does not currently know a leader"));
}

#[test]
fn a_received_key_must_match_before_it_is_written() {
    let ca = b"CA".to_vec();
    assert!(matches!(
        on_replicated_ca(Some(ca.clone())),
        ReceiptStep::LookForKey { ca_pem } if ca_pem == ca
    ));
    assert!(matches!(on_replicated_ca(None), ReceiptStep::Reply(Err(_))));
    assert!(matches!(on_key_looked_for(ca.clone(), true), ReceiptStep::Reply(Ok(()))));
    assert!(matches!(
        on_key_looked_for(ca.clone(), false),
        ReceiptStep::MatchKey { ca_pem } if ca_pem == ca
    ));
    assert!(matches!(on_key_matched(true), ReceiptStep::WriteKey));
    match on_key_matched(false) {
        ReceiptStep::Reply(r) => assert_eq!(refused(r).0, Code::InvalidArgument),
        other => panic!("{other:?}"),
    }
    assert!(on_key_written(Ok(())).is_ok());
    assert_eq!(
        refused(on_key_written(Err("disk".into()))).1,
        "persisting the transferred CA key: disk"
    );
}

#[test]
fn the_wait_for_the_replicated_certificate_ends() {
    assert_eq!(replicated_ca(true, Duration::from_secs(60)), CaWait::Found);
    assert_eq!(replicated_ca(false, Duration::from_millis(4_999)), CaWait::Sleep(25));
    assert_eq!(replicated_ca(false, Duration::from_millis(5_000)), CaWait::GaveUp);
}

// ---- Tokens ------------------------------------------------------------------------

fn mint(label: &str, ttl: Option<u64>) -> MintEnrollTokenRequest {
    MintEnrollTokenRequest {
        history_id: history(),
        role: Ok(EnrollRole::Agent),
        label: label.into(),
        ttl_seconds: ttl,
    }
}

#[test]
fn a_mint_is_labelled_and_representable() {
    let s = service(seam());
    let terms = s.mint_enroll_token(&operator(), &mint("ci", Some(900)), 1_000).expect("terms");
    assert_eq!(terms.minted_at, 1_000);
    assert_eq!(terms.expires_at, Some(900_001_000));
    assert_eq!(
        s.mint_enroll_token(&operator(), &mint("ci", None), 1).expect("terms").expires_at,
        None
    );
    // The longest lifetime is clamped to the last instant, never wrapped.
    let longest = mint("ci", Some(9_223_372_036_854));
    assert_eq!(
        s.mint_enroll_token(&operator(), &longest, i64::MAX).expect("terms").expires_at,
        Some(i64::MAX)
    );
    let fault = |req| refused(s.mint_enroll_token(&operator(), &req, 0)).1;
    assert!(fault(mint(" \t", None)).contains("needs a non-empty label"));
    assert_eq!(
        fault(mint("ci", Some(9_223_372_036_855))),
        "ttl_seconds is outside the representable range"
    );
    let mut roleless = mint("ci", None);
    roleless.role = Err("unknown role".into());
    assert_eq!(fault(roleless), "unknown role");
    assert_eq!(
        refused(s.mint_enroll_token(&Caller::Machine(M1), &mint("ci", None), 0)).0,
        Code::PermissionDenied
    );
}

#[test]
fn hashing_and_proposals_fail_in_their_own_words() {
    assert!(on_secret_hashed(Hashing::Done).is_ok());
    assert_eq!(
        refused(on_secret_hashed(Hashing::TaskFailed("x".into()))).1,
        "token hashing task: x"
    );
    assert_eq!(
        refused(on_secret_hashed(Hashing::HashFailed("x".into()))).1,
        "hashing the token secret: x"
    );
    let no = || Ok(Applied::Rejected { kind: Rejection::Other, reason: "no".into() });
    assert_eq!(refused(on_minted(no())).1, "mint rejected: no");
    assert_eq!(refused(on_token_revoked(no())).1, "revoke rejected: no");
    assert_eq!(refused(on_identity_revoked(no())).1, "identity revocation rejected: no");
    assert!(matches!(on_minted(Ok(Applied::At(3))), Ok(3)));
    assert_eq!(refused(on_minted(Err(ConsensusError::Timeout))).0, Code::DeadlineExceeded);
}

#[test]
fn an_inventory_is_no_credential_export() {
    let token = EnrollToken {
        id: 5,
        hash: "h".into(),
        role: EnrollRole::Coordinator,
        label: "ci".into(),
        minted_at: 1,
        expires_at: Some(2),
        revoked: true,
    };
    let list = service(seam())
        .list_enroll_tokens(&operator(), &history(), &vec![token])
        .expect("an inventory");
    assert_eq!(list.len(), 1);
    assert_eq!(list[0].token_id, 5);
    assert_eq!(list[0].label, "ci");
    assert_eq!((list[0].minted_at_us, list[0].expires_at_us), (1, Some(2)));
    assert!(list[0].revoked);
}

#[test]
fn required_fields_are_required() {
    let s = service(seam());
    assert!(matches!(
        s.revoke_enroll_token(&operator(), &history(), Field::Given(4)),
        Ok(4)
    ));
    assert_eq!(
        refused(s.revoke_enroll_token(&operator(), &history(), Field::Absent)).1,
        "RevokeEnrollTokenRequest.token_id"
    );
    assert_eq!(
        refused(s.revoke_identity(&operator(), &history(), Field::Malformed("x".into()))),
        (Code::InvalidArgument, "x".into())
    );
    assert!(matches!(
        s.revoke_identity(&operator(), &history(), Field::Given(RevokedIdentity::Machine(M1))),
        Ok(RevokedIdentity::Machine(M1))
    ));
    assert!(matches!(
        s.forward_enroll(&Caller::Machine(M1), &history(), Some(Ok(NODE)), None),
        Ok((Some(NODE), None))
    ));
    assert_eq!(
        refused(s.forward_enroll(&Caller::Machine(M1), &history(), None, Some(Err("m".into())))).1,
        "m"
    );
    assert!(matches!(s.renew_coordinator(&Caller::Machine(M1), &history()), Ok(M1)));
    assert_eq!(
        refused(s.renew_coordinator(&operator(), &history())).0,
        Code::PermissionDenied
    );
}

#[test]
fn enrollment_failures_keep_their_codes_on_the_wire() {
    for (err, code) in [
        (EnrollError::Unauthorized, Code::Unauthenticated),
        (EnrollError::BadRequest("b".into()), Code::InvalidArgument),
        (EnrollError::NotFormed, Code::FailedPrecondition),
        (EnrollError::NotLeader { leader: Some(3) }, Code::FailedPrecondition),
        (EnrollError::Internal("i".into()), Code::Internal),
    ] {
        assert_eq!(enroll_error_to_status(err).code(), code);
    }
    assert_eq!(enroll_error_to_status(EnrollError::Unauthorized).message(), "enrollment refused");
    let (cert, ca) =
        on_issued(Ok(Enrolled { cert_pem: b"c".to_vec(), ca_pem: b"a".to_vec() })).expect("text");
    assert_eq!((cert.as_str(), ca.as_str()), ("c", "a"));
    assert_eq!(
        refused(on_issued(Ok(Enrolled { cert_pem: b"c".to_vec(), ca_pem: vec![0xC0] }))).0,
        Code::Internal
    );
}

// ---- Status and probes ----------------------------------------------------------------

#[test]
fn a_status_answer_holds_the_summary_and_the_custody() {
    let answer = service(seam())
        .cluster_status(
            &Caller::Machine(M2),
            &history(),
            HealthVerdict::Degraded { live_voters: 1 },
        )
        .expect("an answer");
    assert_eq!(answer.local_node_id, 1);
    assert_eq!(answer.bindings.len(), 2);
    assert_eq!(
        answer.bindings[0].machine_id,
        "machine-00000000-0000-0000-0000-000000000011"
    );
    assert_eq!(answer.key_holders[0].node_id, 1);
    assert_eq!(answer.key_holders[0].confirmed_at_us, 7);
    assert_eq!(answer.pending_key_transfers[0].node_id, 9);
    let health = answer.health.expect("a leader's health");
    assert!(!health.healthy);
    assert_eq!(health.live_voters, 1);
    assert!(service(seam())
        .cluster_status(&operator(), &history(), HealthVerdict::Unknown)
        .expect("an answer")
        .health
        .is_none());
}

#[test]
fn a_probe_needs_no_cluster_but_a_profile() {
    let at = PhaseState::unformed("c".into(), 3, Duration::from_secs(1), FormationMarks::none());
    let unformed = AdminService::unformed(None);
    assert!(!unformed.probe_cluster(&Caller::Machine(M1), &at).expect("an answer").initialized);
    assert_eq!(
        refused(unformed.probe_cluster(&Caller::Agent(NODE), &at)).0,
        Code::PermissionDenied
    );
}

#[test]
fn the_table_lists_members_holders_and_lags() {
    let answer = service(seam())
        .cluster_status(&operator(), &history(), HealthVerdict::Unknown)
        .expect("an answer");
    let table = render_status(&answer);
    assert_eq!(
        table,
        "node          1\nleader        1 (this node)\nterm          3\napplied       10\n\
         committed     10\nmembers:\n  node 1      voter    c1:7071\n  node 2      voter    \
         c2:7071\nkey holders (ADR 0037 §4):\n  node 1      voter\npending key transfers \
         (unresolved intents, ADR 0037 §4):\n  node 9      possibly keyed\nreplication (leader \
         view):\n  node 1      matched 10           lag 0\n  node 2      matched 9            \
         lag 1\n"
    );
}

// ---- The client -------------------------------------------------------------------------

#[test]
fn local_verbs_never_dial() {
    assert_eq!(route(&AdminVerb::LocalStatus { json: true }), Route::LocalSocket);
    assert_eq!(
        route(&AdminVerb::IssueOperatorCert {
            operator_csr: None,
            operator_cn: None,
            out_dir: None
        }),
        Route::LocalSocket
    );
    assert_eq!(route(&AdminVerb::Status { json: true }), Route::Network);
}

#[test]
fn the_target_is_given_or_discovered() {
    let seeds = vec!["c1:1".to_string(), "c2:1".to_string()];
    assert_eq!(
        choose_target(&Some("x:1".into()), &seeds, BackendKind::Dns),
        Ok("x:1".to_string())
    );
    assert_eq!(choose_target(&None, &seeds, BackendKind::Dns), Ok("c1:1".to_string()));
    assert_eq!(
        choose_target(&None, &vec![], BackendKind::Ec2Asg),
        Err("no --target given and the config's \"ec2-asg\" discovery backend found no \
             candidates; pass --target <host:port>"
            .to_string())
    );
}

#[test]
fn a_verb_learns_the_history_first() {
    let probe = |cluster: &str, initialized, history: Vec<u8>| ProbeClusterResponse {
        cluster_id: cluster.into(),
        history_id: history,
        initialized,
        node_id: None,
        leader_hint: None,
        voters: vec![],
    };
    assert_eq!(learn_history("t:1", "c", &probe("c", true, history())), Ok(history()));
    let err = |p| learn_history("t:1", "c", &p).expect_err("an objection");
    assert_eq!(
        err(probe("d", true, history())),
        "t:1 serves cluster \"d\", this config names \"c\" — wrong target or wrong config"
    );
    assert!(err(probe("c", false, vec![])).contains("has not formed a cluster"));
    assert_eq!(
        err(probe("c", true, vec![1, 2])),
        "t:1 answered a malformed history id (2 bytes)"
    );
}

#[test]
fn a_promotion_is_polled_while_it_may_still_pass() {
    let (wait, poll) = (Duration::from_secs(60), Duration::from_millis(500));
    let step = |outcome: Result<(), Status>, waited| {
        promote_voter(4, &outcome, &waited, &wait, &poll)
    };
    assert!(matches!(step(Ok(()), Duration::from_secs(0)), PollStep::Done));
    let behind = || Err(Status::failed_precondition(format!("{LEARNER_BEHIND}: by 9")));
    let risk = || Err(Status::failed_precondition(format!("{QUORUM_AT_RISK}: 1 of 3")));
    assert!(matches!(step(behind(), Duration::from_secs(1)), PollStep::Sleep));
    assert!(matches!(step(risk(), Duration::from_secs(1)), PollStep::Sleep));
    match step(behind(), Duration::from_millis(59_500)) {
        PollStep::GiveUp(m) => assert_eq!(
            m,
            format!("learner 4 was not promotable within 1m: {LEARNER_BEHIND}: by 9")
        ),
        other => panic!("{other:?}"),
    }
    match step(Err(Status::not_found("gone".into())), Duration::from_secs(0)) {
        PollStep::GiveUp(m) => assert_eq!(m, "admin RPC failed (NotFound): gone"),
        other => panic!("{other:?}"),
    }
    assert_eq!(
        status_to_error(&Status::unavailable("x".into())),
        "admin RPC failed (Unavailable): x"
    );
}

#[test]
fn a_leaders_answer_replaces_the_followers() {
    let answer = |s: Seam| {
        service(s)
            .cluster_status(&operator(), &history(), HealthVerdict::Unknown)
            .expect("an answer")
    };
    let (first, second) = (answer(follower()), answer(seam()));
    assert_eq!(resolved_status(first.clone(), None).local_node_id, 2);
    assert_eq!(resolved_status(first.clone(), Some(Err("x".into()))).local_node_id, 2);
    assert_eq!(resolved_status(first, Some(Ok(second))).local_node_id, 1);
}

#[test]
fn a_verb_reports_what_it_did() {
    let line = |verb| done_line(&verb);
    assert_eq!(
        line(AdminVerb::AddLearner { node_id: 7, addr: "c7:1".into() }).as_deref(),
        Some("added node 7 as a learner (c7:1)")
    );
    assert_eq!(
        line(AdminVerb::Promote { node_id: 7, wait: Duration::from_secs(1) }).as_deref(),
        Some("promoted node 7 to voter")
    );
    assert_eq!(
        line(AdminVerb::ReplaceVoter { old: 2, new: 5 }).as_deref(),
        Some("replaced voter 2 with node 5")
    );
    assert_eq!(
        line(AdminVerb::Remove { node_id: 7 }).as_deref(),
        Some("removed node 7 from membership")
    );
    assert_eq!(
        line(AdminVerb::SetAddress { node_id: 7, addr: "c7:1".into() }).as_deref(),
        Some("node 7 now advertises c7:1")
    );
    assert_eq!(line(AdminVerb::Status { json: false }), None);
}

#[test]
fn a_network_verb_asks_under_the_targets_history() {
    let probe = |initialized| ProbeClusterResponse {
        cluster_id: "c".into(),
        history_id: history(),
        initialized,
        node_id: None,
        leader_hint: None,
        voters: vec![],
    };
    let call = |verb| run_cli(&verb, "t:1", "c", &probe(true)).expect("a call");
    match call(AdminVerb::AddLearner { node_id: 7, addr: "c7:1".into() }) {
        AdminCall::AddLearner(q) => {
            assert_eq!((q.node_id, q.address.as_str()), (7, "c7:1"));
            assert_eq!(q.history_id, history());
        }
        other => panic!("{other:?}"),
    }
    match call(AdminVerb::Promote { node_id: 7, wait: Duration::from_secs(9) }) {
        AdminCall::PromoteVoter { history_id, node_id, wait } => {
            assert_eq!((history_id, node_id), (history(), 7));
            assert_eq!(wait, Duration::from_secs(9));
        }
        other => panic!("{other:?}"),
    }
    match call(AdminVerb::ReplaceVoter { old: 2, new: 5 }) {
        AdminCall::ReplaceVoter { history_id, old_node_id, new_node_id } => {
            assert_eq!((history_id, old_node_id, new_node_id), (history(), 2, 5));
        }
        other => panic!("{other:?}"),
    }
    match call(AdminVerb::Remove { node_id: 3 }) {
        AdminCall::RemoveNode { history_id, node_id } => {
            assert_eq!((history_id, node_id), (history(), 3));
        }
        other => panic!("{other:?}"),
    }
    match call(AdminVerb::SetAddress { node_id: 3, addr: "c9:1".into() }) {
        AdminCall::SetNodeAddress(q) => {
            assert_eq!((q.node_id, q.address.as_str()), (3, "c9:1"));
            assert_eq!(q.history_id, history());
        }
        other => panic!("{other:?}"),
    }
    assert!(matches!(
        call(AdminVerb::Status { json: true }),
        AdminCall::ClusterStatus { history_id } if history_id == history()
    ));
    let err = run_cli(&AdminVerb::Remove { node_id: 3 }, "t:1", "c", &probe(false))
        .expect_err("a target without a cluster");
    assert!(err.contains("has not formed a cluster"), "{err}");
}

#[test]
fn a_verb_prints_its_line_or_its_document() {
    assert_eq!(
        output(&AdminVerb::Remove { node_id: 7 }, &None),
        "removed node 7 from membership\n"
    );
    let status = service(seam())
        .cluster_status(&operator(), &history(), HealthVerdict::Unknown)
        .expect("an answer");
    let (json, table) = (render_status_json(&status), render_status(&status));
    let status = Some(status);
    assert_eq!(output(&AdminVerb::Status { json: true }, &status), format!("{json}\n"));
    assert_eq!(output(&AdminVerb::Status { json: false }, &status), table);
}
