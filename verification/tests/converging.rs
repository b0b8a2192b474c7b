//! Converging on a cluster: the search for a leader, one pass against it, and
//! the watch for a superseding history.

use coppice_coordinator::clock::{fraction, subsecond};
use coppice_coordinator::cluster::{ClusterSummary, MachineId, MemberSummary};
use coppice_coordinator::config::{EnrollmentConfig, PacingConfig};
use coppice_coordinator::convergence::classify::JoinStep;
use coppice_coordinator::convergence::join::{
    after_join, after_search, holds_seat, on_admitted, on_dialled, on_promoted, on_status,
    settled_tick, AfterSearch, JoinAct, Notice,
};
use coppice_coordinator::convergence::leader::{
    dial_targets, relevant_answer, seed_targets, Answer, LeaderSearch, SearchStep,
};
use coppice_coordinator::convergence::pacing::{jittered_at, ParkRamp};
use coppice_coordinator::convergence::prestart::{
    choose_cluster, claimed_identity, enrolls, leaf_present, round_targets,
};
use coppice_coordinator::convergence::supersession::{
    widen_targets, EdgeReport, FailStop, Look, PublicEdge, Verdict, Watch, HISTORY_SUPERSEDED,
};
use coppice_coordinator::status::{has_marker, Status, HISTORY_CONFLICT};
use coppice_coordinator::time::{Duration, MILLISECOND};
use coppice_coordinator::wire::{
    ClusterStatusResponse, ProbeClusterResponse, ProbeVoter, ReplicationProgress,
};

const CLUSTER: &str = "cluster-a";

fn history() -> Vec<u8> {
    vec![0xAA; 16]
}

fn texts(list: &[&str]) -> Vec<String> {
    list.iter().map(|s| s.to_string()).collect()
}

fn summary(local_id: u64, leader: Option<u64>) -> ClusterSummary {
    ClusterSummary {
        local_id,
        leader,
        term: 1,
        last_applied: 0,
        known_committed: 0,
        snapshot_last_index: None,
        members: vec![
            MemberSummary { id: 1, addr: "c1:1".into(), voter: true },
            MemberSummary { id: 2, addr: "c2:1".into(), voter: true },
            MemberSummary { id: 3, addr: "c3:1".into(), voter: false },
        ],
        replication: vec![],
        millis_since_quorum_ack: None,
    }
}

fn probe(node: Option<u64>, hint: Option<u64>, voters: &[(u64, &str)]) -> ProbeClusterResponse {
    ProbeClusterResponse {
        cluster_id: CLUSTER.into(),
        history_id: history(),
        initialized: true,
        node_id: node,
        leader_hint: hint,
        voters: voters
            .iter()
            .map(|(node_id, a)| ProbeVoter { node_id: *node_id, address: a.to_string() })
            .collect(),
    }
}

/// Run a search against a table of who answers what; whom it asked, and what
/// it ended on.
fn search(
    candidates: &[&str],
    answers: &[(&str, ProbeClusterResponse)],
) -> (Vec<String>, Option<String>) {
    let mut search = LeaderSearch::new(texts(candidates));
    let mut asked = Vec::new();
    loop {
        match search.advance() {
            SearchStep::Probe(addr) => {
                let answer = answers.iter().find(|(a, _)| *a == addr).map(|(_, p)| p.clone());
                asked.push(addr);
                if let Some((found, _)) = search.answered(answer) {
                    return (asked, Some(found));
                }
            }
            SearchStep::Found { addr, history: found } => {
                assert_eq!(found, history());
                return (asked, Some(addr));
            }
            SearchStep::NotFound => return (asked, None),
        }
    }
}

#[test]
fn membership_names_the_leader_first_and_nobody_twice() {
    assert_eq!(dial_targets(&summary(3, Some(2))), vec!["c2:1", "c1:1"]);
    assert_eq!(dial_targets(&summary(3, None)), vec!["c1:1", "c2:1"]);
    assert_eq!(dial_targets(&summary(3, Some(9))), vec!["c1:1", "c2:1"]);
    assert_eq!(seed_targets(&texts(&["me:1", "c1:1", "me:1"]), "me:1"), vec!["c1:1"]);
}

#[test]
fn a_claimant_is_taken_outright_once_the_round_is_complete() {
    let voters = [(1, "c1:1"), (2, "c2:1")];
    let (asked, found) = search(
        &["c1:1", "c2:1", "c3:1"],
        &[
            ("c1:1", probe(Some(1), Some(2), &voters)),
            ("c2:1", probe(Some(2), Some(2), &voters)),
            ("c3:1", probe(Some(3), Some(3), &voters)),
        ],
    );
    assert_eq!(asked, vec!["c1:1", "c2:1", "c3:1"]);
    assert_eq!(found.as_deref(), Some("c2:1"));
}

#[test]
fn a_hint_counts_only_when_the_endpoint_confirms_it() {
    let voters = [(1, "c1:1"), (2, "c2:1")];
    // The hinted endpoint claims leadership for itself.
    let (asked, found) = search(
        &["c1:1"],
        &[
            ("c1:1", probe(Some(1), Some(2), &voters)),
            ("c2:1", probe(Some(2), Some(2), &voters)),
        ],
    );
    assert_eq!(asked, vec!["c1:1", "c2:1"]);
    assert_eq!(found.as_deref(), Some("c2:1"));
    // It does not: the voter that answered is the fallback, since its refusal
    // will name the leader.
    let (_, found) = search(
        &["c1:1"],
        &[
            ("c1:1", probe(Some(1), Some(2), &voters)),
            ("c2:1", probe(Some(2), Some(1), &voters)),
        ],
    );
    assert_eq!(found.as_deref(), Some("c1:1"));
    // Another node answers there under its own claim: not the hinted one.
    let (_, found) = search(
        &["c1:1"],
        &[
            ("c1:1", probe(Some(1), Some(2), &voters)),
            ("c2:1", probe(Some(5), Some(5), &voters)),
        ],
    );
    assert_eq!(found.as_deref(), Some("c1:1"));
}

#[test]
fn nobody_answers_nobody_is_found() {
    let (asked, found) = search(&["c1:1", "c2:1", "c1:1"], &[]);
    assert_eq!(asked, vec!["c1:1", "c2:1", "c1:1"]);
    assert_eq!(found, None);
    // A node that reports no voters leads nowhere.
    assert_eq!(search(&["c1:1"], &[("c1:1", probe(Some(1), None, &[]))]).1, None);
    // One that is no voter but knows some is the last resort.
    let (_, found) = search(&["c1:1"], &[("c1:1", probe(Some(7), None, &[(2, "c2:1")]))]);
    assert_eq!(found.as_deref(), Some("c1:1"));
}

#[test]
fn only_initialized_clusters_of_this_name_are_heard() {
    let good = probe(Some(1), None, &[]);
    assert!(relevant_answer(Some(good.clone()), CLUSTER).is_some());
    assert!(relevant_answer(Some(good.clone()), "cluster-b").is_none());
    let mut parked = good;
    parked.initialized = false;
    assert!(relevant_answer(Some(parked), CLUSTER).is_none());
    assert!(relevant_answer(None, CLUSTER).is_none());
}

// ---- One pass ----------------------------------------------------------------

fn replicated(rows: &[(u64, u64)], applied: u64) -> ClusterStatusResponse {
    ClusterStatusResponse {
        local_node_id: 1,
        leader_node_id: Some(1),
        term: 1,
        last_applied_index: applied,
        known_committed_index: applied,
        membership: None,
        replication: rows
            .iter()
            .map(|(node_id, matched_index)| ReplicationProgress {
                node_id: *node_id,
                matched_index: *matched_index,
            })
            .collect(),
        bindings: vec![],
        key_holders: vec![],
        pending_key_transfers: vec![],
        health: None,
    }
}

#[test]
fn a_pass_admits_watches_and_promotes() {
    let history = vec![0xAA; 16];
    assert!(matches!(
        on_dialled(false, &history, 7, "c7:7071"),
        JoinAct::Done(JoinStep::Retry)
    ));
    match on_dialled(true, &history, 7, "c7:7071") {
        JoinAct::AddLearner(req) => {
            assert_eq!(req.history_id, history);
            assert_eq!(req.node_id, 7);
            assert_eq!(req.address, "c7:7071");
        }
        other => panic!("{other:?}"),
    }
    assert!(matches!(
        on_admitted(&Ok(()), &history),
        JoinAct::ReadStatus { history_id } if history_id == history
    ));
    assert!(matches!(
        on_admitted(&Err(Status::unavailable("x".into())), &history),
        JoinAct::Done(JoinStep::Retry)
    ));
    // Caught up is what the leader reports, within the allowed lag.
    assert!(matches!(
        on_status(&Ok(replicated(&[(7, 90)], 100)), &history, 7, 10),
        JoinAct::PromoteVoter { history_id, node_id: 7 } if history_id == history
    ));
    assert!(matches!(
        on_status(&Ok(replicated(&[(7, 89)], 100)), &history, 7, 10),
        JoinAct::Done(JoinStep::Learner)
    ));
    assert!(matches!(
        on_status(&Ok(replicated(&[(8, 100)], 100)), &history, 7, 10),
        JoinAct::Done(JoinStep::Learner)
    ));
    assert!(matches!(
        on_status(&Ok(replicated(&[(7, 0)], 5)), &history, 7, 10),
        JoinAct::PromoteVoter { .. }
    ));
    assert!(matches!(on_promoted(&Ok(())), JoinStep::Promoted));
}

#[test]
fn each_outcome_has_its_cadence_and_its_notice() {
    let pacing = PacingConfig::default();
    let tick = |step| after_join(step, &pacing);
    assert_eq!(tick(JoinStep::Promoted).wait, pacing.settled_interval);
    assert_eq!(tick(JoinStep::Learner).wait, pacing.probe_interval);
    assert_eq!(tick(JoinStep::Retry).wait, pacing.probe_interval);
    let held = tick(JoinStep::VoterSetFull("full".into()));
    assert_eq!(held.wait, pacing.settled_interval);
    assert!(matches!(held.notice, Notice::PromotionHold(m) if m == "full"));
    let refused = tick(JoinStep::Refused("no".into()));
    assert_eq!(refused.wait, pacing.refusal_backoff);
    assert!(matches!(refused.notice, Notice::AdmissionRefusal(m) if m == "no"));
    let unverified = tick(JoinStep::EndpointUnverified("e".into()));
    assert_eq!(unverified.wait, pacing.probe_interval);
    assert!(matches!(unverified.notice, Notice::AdmissionRefusal(_)));
    assert!(matches!(settled_tick(&pacing).notice, Notice::Clear));
    assert!(holds_seat(&summary(1, None)));
    assert!(!holds_seat(&summary(3, None)));
    assert!(!holds_seat(&summary(9, None)));
}

#[test]
fn histories_are_compared_before_asking() {
    let pacing = PacingConfig::default();
    match after_search(Some(("c1:1".into(), history())), &history(), &pacing) {
        AfterSearch::Join(addr) => assert_eq!(addr, "c1:1"),
        other => panic!("{other:?}"),
    }
    match after_search(Some(("c1:1".into(), vec![0xBB; 16])), &history(), &pacing) {
        AfterSearch::Over(tick) => {
            assert_eq!(tick.wait, pacing.refusal_backoff);
            match tick.notice {
                Notice::AdmissionRefusal(m) => assert!(has_marker(&m, HISTORY_CONFLICT), "{m}"),
                other => panic!("{other:?}"),
            }
        }
        other => panic!("{other:?}"),
    }
    match after_search(None, &history(), &pacing) {
        AfterSearch::Over(tick) => assert_eq!(tick.wait, pacing.probe_interval),
        other => panic!("{other:?}"),
    }
}

// ---- Parked -------------------------------------------------------------------

#[test]
fn a_parked_round_enrolls_then_probes() {
    assert!(enrolls(true, false));
    assert!(!enrolls(true, true));
    assert!(!enrolls(false, false));
    let (kept, minted) = (MachineId { id: 1 }, MachineId { id: 2 });
    assert_eq!(claimed_identity(Some(kept), minted), (kept, false));
    assert_eq!(claimed_identity(None, minted), (minted, true));
    assert!(leaf_present(true, true, true));
    assert!(!leaf_present(true, false, true));
    let seeds = texts(&["me:1", "c1:1"]);
    assert_eq!(round_targets(&seeds, "me:1", true), Some(texts(&["c1:1"])));
    assert_eq!(round_targets(&seeds, "me:1", false), None);
    assert_eq!(round_targets(&texts(&["me:1"]), "me:1", true), None);
}

#[test]
fn a_parked_daemon_joins_the_first_cluster_of_its_name() {
    let answer = |addr: &str, probe| Answer { addr: addr.into(), probe };
    let mut foreign = probe(Some(1), None, &[]);
    foreign.cluster_id = "cluster-b".into();
    let found = choose_cluster(
        &vec![answer("c0:1", foreign.clone()), answer("c1:1", probe(Some(1), None, &[]))],
        CLUSTER,
    );
    assert_eq!(found, Ok(Some(("c1:1".to_string(), history()))));
    assert_eq!(choose_cluster(&vec![answer("c0:1", foreign)], CLUSTER), Ok(None));
    let mut short = probe(Some(1), None, &[]);
    short.history_id = vec![1];
    assert!(choose_cluster(&vec![answer("c1:1", short)], CLUSTER)
        .expect_err("a malformed history")
        .contains("with a 1-byte history id; expected 16"));
}

#[test]
fn the_park_ramp_doubles_to_its_ceiling() {
    let pacing = PacingConfig {
        park_interval_min: Duration::from_millis(500),
        park_interval_max: Duration::from_millis(1_500),
        ..PacingConfig::default()
    };
    let mut ramp = ParkRamp::new(&pacing);
    let mut waits = Vec::new();
    for _ in 0..4 {
        waits.push(ramp.backoff.as_nanos() / MILLISECOND);
        assert_eq!(ramp.stuck(), waits.len() > 2);
        ramp.back_off();
    }
    assert_eq!(waits, vec![500, 1_000, 1_500, 1_500]);
}

#[test]
fn jitter_is_drawn_from_the_clock() {
    let base = Duration::from_millis(400);
    assert_eq!(jittered_at(base, 0), base);
    assert_eq!(jittered_at(base, 105), Duration::from_millis(405));
    // Too short to spread.
    assert_eq!(jittered_at(Duration::from_millis(3), 999), Duration::from_millis(3));
}

#[test]
fn a_clock_before_the_epoch_gives_no_fraction() {
    assert_eq!(fraction(Some(123_456_789)), 123_456_789);
    assert_eq!(fraction(None), 0);
    assert!(subsecond() < 1_000_000_000);
}

// ---- Supersession ----------------------------------------------------------------

fn edge(history: &str) -> Option<EdgeReport> {
    Some(EdgeReport { cluster_id: CLUSTER.into(), history_id: Some(history.into()) })
}

#[test]
fn the_edge_must_corroborate_itself_three_times() {
    let other = "bb".repeat(16);
    let mut watch = Watch::new();
    let mut look = |report| match watch.on_edge("https://edge", report, CLUSTER, &history()) {
        Verdict::Over => None,
        Verdict::FailStop(m) => Some(m),
    };
    assert_eq!(look(edge(&other)), None);
    assert_eq!(look(edge(&other)), None);
    // Any other round starts the count over.
    assert_eq!(look(edge(&"aa".repeat(16))), None);
    assert_eq!(look(edge(&other)), None);
    assert_eq!(look(edge(&"cc".repeat(16))), None);
    assert_eq!(look(edge(&other)), None);
    assert_eq!(look(None), None);
    assert_eq!(look(edge(&other)), None);
    assert_eq!(look(edge(&other)), None);
    let stop = look(edge(&other)).expect("three in a row");
    assert!(has_marker(&stop, HISTORY_SUPERSEDED), "{stop}");
    assert!(stop.contains("https://edge"), "{stop}");
    assert!(stop.contains(&other), "{stop}");
}

#[test]
fn a_peer_is_conclusive_at_once() {
    let mut watch = Watch::new();
    assert!(matches!(watch.on_peer("c2:1", &history(), &history()), Verdict::Over));
    match watch.on_peer("c2:1", &[0xBB; 16], &history()) {
        Verdict::FailStop(m) => {
            assert!(m.contains("the mutually authenticated machine plane"), "{m}")
        }
        other => panic!("{other:?}"),
    }
}

#[test]
fn the_edge_is_asked_only_after_every_peer_was_silent() {
    let targets = texts(&["c1:1", "c2:1"]);
    let stamped = history();
    let mut watch = Watch::new();
    assert!(matches!(watch.look(2, 0, true), Look::Probe(0)));
    assert!(matches!(watch.on_probe(&targets, 0, None, &stamped, true), Look::Probe(1)));
    assert!(matches!(watch.on_probe(&targets, 1, None, &stamped, true), Look::Edge));
    assert!(matches!(watch.look(0, 0, true), Look::Edge));

    // With no edge a silent round observes nothing.
    assert_eq!(watch.note_supersession("bb"), 1);
    assert!(matches!(watch.on_probe(&targets, 1, None, &stamped, false), Look::Over));
    assert_eq!(watch.note_supersession("bb"), 1);

    // The first answer settles the round.
    let own = Some(probe(Some(1), None, &[]));
    assert!(matches!(watch.on_probe(&targets, 0, own, &stamped, true), Look::Over));
    let mut other = probe(Some(1), None, &[]);
    other.history_id = vec![0xBB; 16];
    match watch.on_probe(&targets, 0, Some(other), &stamped, true) {
        Look::FailStop(m) => assert!(m.contains("c1:1"), "{m}"),
        other => panic!("{other:?}"),
    }
}

#[test]
fn a_voter_in_contact_does_not_look() {
    let mut watch = Watch::new();
    assert!(!watch.begin(true, true));
    assert!(!watch.begin(false, false));
    assert!(watch.begin(false, true));
    assert_eq!(watch.note_supersession("bb"), 1);
    assert_eq!(watch.note_supersession("bb"), 2);
    assert!(!watch.begin(false, false));
    assert_eq!(watch.note_supersession("bb"), 1);
    watch.forget_supersession();
    assert_eq!(watch.note_supersession("bb"), 1);
}

#[test]
fn the_first_reason_to_stop_wins() {
    let mut stop = FailStop::new();
    assert_eq!(stop.reason(), None);
    assert!(!stop.is_draining());
    stop.trigger("first".into());
    stop.trigger("second".into());
    assert_eq!(stop.reason().as_deref(), Some("first"));
    assert!(stop.is_draining());
}

#[test]
fn a_lost_voter_looks_where_discovery_points_too() {
    assert_eq!(
        widen_targets(texts(&["c1:1"]), &texts(&["me:1", "c1:1", "c9:1"]), "me:1"),
        vec!["c1:1", "c9:1"]
    );
}

#[test]
fn only_a_dialable_endpoint_is_a_second_witness() {
    let section = |endpoint: &str, insecure: bool| {
        Some(EnrollmentConfig {
            endpoint: endpoint.into(),
            insecure,
            token: None,
            token_path: Some("/t".into()),
        })
    };
    let edge = PublicEdge::from_config(&section("https://edge:7070//", false)).expect("https");
    assert_eq!(edge.endpoint, "https://edge:7070");
    assert_eq!(edge.readyz_url(), "https://edge:7070/readyz");
    assert!(!edge.insecure);
    let edge = PublicEdge::from_config(&section("http://edge", true)).expect("opted in");
    assert_eq!(edge.readyz_url(), "http://edge/readyz");
    assert!(edge.insecure);
    assert!(PublicEdge::from_config(&section("http://edge", false)).is_none());
    assert!(PublicEdge::from_config(&None).is_none());
}
