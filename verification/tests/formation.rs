//! Formation: what a directory says, what a phase answers, and in what order
//! a cluster is formed.

use coppice_coordinator::bootstrap::boot::StartIntent;
use coppice_coordinator::cluster::{mint_history, ClusterSummary, MachineId, MemberSummary};
use coppice_coordinator::config::{
    default_agent_addr, default_client_addr, default_raft_addr, BackendKind, ClusterId, Config,
    DiscoveryConfig, ListenConfig, ObservabilityConfig, PacingConfig, RaftConfig, StaticBackend,
    TlsConfig, TokenKdfConfig,
};
use coppice_coordinator::convergence::join::Notice;
use coppice_coordinator::formation::form::{
    form, issue_operator_credential, load_cluster_ca, operator_cn, Failpoint, FormAct, FormContext,
    FormNext, FormRequest, FormStage, Formation, Forming, SignerFault, DEFAULT_OPERATOR_CN,
};
use coppice_coordinator::formation::guard::{
    leaf_sans, on_answers, refuse_if_cluster_exists, GuardStep,
};
use coppice_coordinator::formation::phase::{
    failed_diagnostic, FormedReplica, PhaseState, ReadyzPhase,
};
use coppice_coordinator::formation::startup::{
    inspect, resumed_history, FormationMarks, ManifestStamp, StartupState,
};
use coppice_coordinator::time::Duration;
use coppice_coordinator::wire::ProbeClusterResponse;

const CLUSTER: &str = "cluster-5f0e6e6a-9c2a-4b8e-9a2b-1f4b6c8d9e10";

fn marks(intent: Option<i64>, complete: Option<i64>) -> FormationMarks {
    FormationMarks { intent_at_us: intent, complete_at_us: complete }
}

fn state(marks: FormationMarks) -> PhaseState {
    PhaseState::unformed(CLUSTER.into(), 3, Duration::from_secs(1), marks)
}

#[test]
fn intent_without_marker_is_the_failed_phase() {
    let s = state(marks(Some(1_000), None));
    assert_eq!(s.failed_at(), Some(1_000));
    assert_eq!(s.readyz(&None).phase, ReadyzPhase::FormationFailed);
    assert!(!s.is_formed());
}

#[test]
fn a_completed_formation_restarts_as_a_plain_instance() {
    // Both markers present: nothing to fail-stop on. (This directory then
    // resumes through the normal path, which publishes `Formed`.)
    let s = state(marks(Some(1_000), Some(2_000)));
    assert_eq!(s.failed_at(), None);
    assert_eq!(s.readyz(&None).phase, ReadyzPhase::Waiting);
}

#[test]
fn a_fresh_directory_parks() {
    let s = state(marks(None, None));
    assert_eq!(s.readyz(&None).phase, ReadyzPhase::Waiting);
    assert!(s.readyz(&None).reason.unwrap().contains("coordinator init"));
}

#[test]
fn an_unformed_daemon_never_reports_initialized_to_a_prober() {
    for m in [marks(None, None), marks(Some(1), None)] {
        let answer = state(m).probe();
        assert!(!answer.initialized);
        assert!(answer.history_id.is_empty());
        assert!(answer.node_id.is_none());
    }
}

#[test]
fn the_failed_diagnostic_names_the_recovery() {
    let msg = failed_diagnostic(1_700_000_000_000_000, &None);
    assert!(msg.contains("wipe the data directory"), "{msg}");
    assert!(msg.contains("coppice coordinator init"), "{msg}");
    assert!(msg.starts_with("formation started at 1700000000000000us never completed"), "{msg}");
    let shown = failed_diagnostic(0, &Some("2023-11-14T22:13:20Z".into()));
    assert!(shown.starts_with("formation started at 2023-11-14T22:13:20Z never"), "{shown}");
}

#[test]
fn inspect_reads_an_absent_manifest_as_empty() {
    let (state, marks) = inspect(&None);
    assert!(matches!(state, StartupState::Empty));
    assert_eq!(marks, FormationMarks::none());
}

#[test]
fn a_stamped_directory_resumes_under_its_stamp() {
    let stamp = ManifestStamp {
        history_id: vec![0xAA; 16],
        formation: marks(Some(1), Some(2)),
    };
    let (state, found) = inspect(&Some(stamp));
    assert!(matches!(state, StartupState::Resume { history_id } if history_id == vec![0xAA; 16]));
    assert_eq!(found, marks(Some(1), Some(2)));
}

#[test]
fn only_an_unmarked_stamp_must_match_the_configuration() {
    let (config, stamped) = (vec![1u8; 16], vec![2u8; 16]);
    assert_eq!(
        resumed_history("/d", &config, &stamped, marks(Some(1), Some(2))),
        Ok(stamped.clone())
    );
    assert_eq!(resumed_history("/d", &config, &config, marks(None, None)), Ok(config.clone()));
    let err = resumed_history("/d", &config, &stamped, marks(None, None))
        .expect_err("a wrong volume");
    assert!(err.contains(&"02".repeat(16)), "{err}");
    assert!(err.contains(&"01".repeat(16)), "{err}");
}

// ---- The order of a formation ------------------------------------------

const MACHINE: MachineId = MachineId { id: 0x7 };
const NODE_ID: u64 = 42;
const CA_PEM: &[u8] = b"-----BEGIN CERTIFICATE-----";

fn config() -> Config {
    Config {
        cluster_id: ClusterId { text: CLUSTER.into(), bytes: vec![1; 16] },
        data_dir: "/var/lib/coppice".into(),
        discovery: DiscoveryConfig {
            backend: BackendKind::Static,
            cluster_size: 1,
            removal_grace: Duration::from_secs(120),
            learner_expiry: Duration::from_secs(3600),
            static_backend: Some(StaticBackend { addrs: vec![] }),
            dns: None,
            file: None,
            ec2_asg: None,
        },
        listen: ListenConfig {
            client_addr: default_client_addr(),
            raft_addr: default_raft_addr(),
            agent_addr: default_agent_addr(),
            advertise_host: Some("localhost".into()),
            admin_socket: None,
        },
        raft: RaftConfig {
            election_timeout: Duration::from_millis(300),
            heartbeat_interval: Duration::from_millis(100),
            ..RaftConfig::default()
        },
        pacing: PacingConfig::default(),
        token_kdf: TokenKdfConfig::default(),
        tls: TlsConfig { cert_path: "/c".into(), key_path: "/k".into(), ca_path: "/a".into() },
        client_tls: None,
        enrollment: None,
        sso: None,
        observability: ObservabilityConfig::default(),
    }
}

fn context(failpoint: Option<Failpoint>) -> FormContext {
    FormContext {
        config: config(),
        advertise_addr: "localhost:17071".into(),
        had_tls: true,
        machine: MACHINE,
        failpoint,
    }
}

fn begin(policy: bool, failpoint: Option<Failpoint>) -> Forming {
    let policy = policy.then(|| b"[[quota_entity]]".to_vec());
    form(context(failpoint), FormRequest { policy, operator_csr: None, operator_cn: None })
}

/// What a run left: the steps it took, the acts it did, the markers, and how
/// it ended.
struct Run {
    taken: Vec<FormStage>,
    acts: Vec<FormAct>,
    left: FormationMarks,
    ended: Result<Formation, (String, bool)>,
}

/// Run a formation whose steps all succeed but `failing`.
fn run(mut at: Forming, failing: Option<FormStage>, ca_pem: &[u8]) -> Run {
    let mut taken = Vec::new();
    let mut acts = Vec::new();
    let mut left = FormationMarks::none();
    loop {
        let stage = at.stage;
        let act = at.act();
        taken.push(stage);
        acts.push(act.clone());
        let fails = failing == Some(stage);
        let no = || "no".to_string();
        if !fails {
            match stage {
                FormStage::StampIntent => left.intent_at_us = Some(7),
                FormStage::Mark => left.complete_at_us = Some(9),
                _ => {}
            }
        }
        let next = match act {
            FormAct::StampIntent { .. } => {
                at.on_stamped(if fails { Err(no()) } else { Ok(NODE_ID) })
            }
            FormAct::MintCa => {
                at.on_ca_minted(if fails { Err(no()) } else { Ok(ca_pem.to_vec()) })
            }
            FormAct::IssueOperator { csr, .. } => at.on_operator_issued(if fails {
                Err(no())
            } else {
                Ok((b"CERT".to_vec(), csr.is_none().then(|| b"KEY".to_vec())))
            }),
            _ => at.on_step(if fails { Err(no()) } else { Ok(()) }),
        };
        at = match next {
            FormNext::Do(next) => next,
            FormNext::Complete(made) => return Run { taken, acts, left, ended: Ok(made) },
            FormNext::Fail { message, stop_replica } => {
                return Run { taken, acts, left, ended: Err((message, stop_replica)) }
            }
        };
    }
}

#[test]
fn form_records_the_ca_the_binding_the_policy_and_the_marker() {
    let Run { taken, acts, left, ended } = run(begin(true, None), None, CA_PEM);
    let formation = ended.expect("formation succeeds");
    let did = |wanted: &dyn Fn(&FormAct) -> bool| acts.iter().any(wanted);

    // The certificate is recorded, and this node's machine identity binds to
    // its raft seat at the advertised address.
    assert!(did(&|a| matches!(a, FormAct::RecordCa { pem, machine, node_id, address }
        if pem.contains("BEGIN CERTIFICATE")
            && *machine == formation.machine
            && *node_id == formation.node_id
            && address == "localhost:17071")));
    assert_eq!((formation.machine, formation.node_id), (MACHINE, NODE_ID));

    // The key and the identity belong on this voter's disk.
    let dir = "/var/lib/coppice";
    assert!(did(&|a| matches!(a, FormAct::WriteCaKey { data_dir } if data_dir == dir)));
    assert!(did(&|a| matches!(a, FormAct::PersistMachine { data_dir, machine }
        if data_dir == dir && *machine == MACHINE)));

    // The leaf is this machine's, under the names it is dialled by.
    assert!(did(&|a| matches!(a, FormAct::IssueLeaf { machine, sans }
        if *machine == MACHINE && sans == &["localhost", "127.0.0.1", "::1"])));
    assert!(did(&|a| matches!(a, FormAct::InstallLeaf { tls, ca_pem }
        if tls.cert_path == "/c" && tls.key_path == "/k" && tls.ca_path == "/a"
            && ca_pem == CA_PEM)));
    assert!(did(&|a| matches!(a, FormAct::LoadTls { reload: true, .. })));

    // The bootstrap policy landed.
    assert!(did(&|a| matches!(a, FormAct::ParsePolicy { policy } if policy == b"[[quota_entity]]")));
    assert!(taken.contains(&FormStage::ApplyPolicy));

    // The operator's credential exists nowhere but the reply.
    assert!(did(&|a| matches!(a, FormAct::IssueOperator { cn, csr: None }
        if cn == DEFAULT_OPERATOR_CN)));
    assert_eq!(formation.operator.key_pem.as_deref(), Some("KEY"));
    assert_eq!(formation.operator.cert_pem, "CERT");
    assert!(formation.operator.ca_pem.contains("BEGIN CERTIFICATE"));

    // The history is minted, not derived: it must differ from the configured
    // cluster's bytes. What is stamped is what consensus starts on.
    assert_ne!(formation.history, config().cluster_id.bytes);
    assert!(did(&|a| matches!(a, FormAct::StampIntent { data_dir, history }
        if data_dir == dir && *history == formation.history)));
    assert!(did(&|a| matches!(a, FormAct::StartConsensus { options, intent: StartIntent::Restart }
        if options.history_id == formation.history
            && options.data_dir == dir
            && options.advertise_addr == "localhost:17071"
            && options.election_timeout.as_nanos() == 300_000_000)));
    assert!(did(&|a| matches!(a, FormAct::InitializeVoter { address }
        if address == "localhost:17071")));
    let again = run(begin(true, None), None, CA_PEM).ended.expect("formation succeeds");
    assert_ne!(again.history, formation.history);

    // And the marker is stamped last.
    assert_eq!(taken.last(), Some(&FormStage::Mark));
    assert!(left.intent_at_us.is_some());
    assert!(left.complete_at_us.is_some());
}

#[test]
fn a_certificate_that_is_no_text_stops_the_replica() {
    let (message, stop_replica) = run(begin(false, None), None, &[0xFF])
        .ended
        .expect_err("a certificate that is no text");
    assert_eq!(
        message,
        "cluster CA certificate is not UTF-8: invalid utf-8 sequence of 1 bytes from index 0"
    );
    assert!(stop_replica);
}

#[test]
fn an_operators_request_and_name_are_passed_on() {
    let req = FormRequest {
        policy: None,
        operator_csr: Some(b"CSR".to_vec()),
        operator_cn: Some("alice".into()),
    };
    let Run { acts, ended, .. } = run(form(context(None), req), None, CA_PEM);
    assert!(acts.iter().any(|a| matches!(a, FormAct::IssueOperator { cn, csr: Some(csr) }
        if cn == "alice" && csr == b"CSR")));
    assert_eq!(ended.expect("formation succeeds").operator.key_pem, None);
}

/// Both sides of `raft.initialize` leave the same identifiable state: an
/// intent with no marker. That equivalence is the whole point of putting
/// the marker after the operator certificate and the policy.
fn assert_failpoint_leaves_an_incomplete_formation(failpoint: Failpoint) {
    let Run { left, ended, .. } = run(begin(false, Some(failpoint)), None, CA_PEM);
    let (err, stop_replica) = ended.expect_err("the failpoint aborts formation");
    assert!(err.contains("failpoint"), "{err}");
    assert_eq!(stop_replica, failpoint == Failpoint::AfterRaftInitialize);

    assert!(left.failed());
    let stamp = ManifestStamp { history_id: mint_history(), formation: left };
    assert!(matches!(
        inspect(&Some(stamp)).0,
        StartupState::FormationFailed { intent_at_us } if Some(intent_at_us) == left.intent_at_us
    ));
}

#[test]
fn a_failpoint_before_raft_initialize_leaves_an_incomplete_formation() {
    assert_failpoint_leaves_an_incomplete_formation(Failpoint::BeforeRaftInitialize);
}

#[test]
fn a_failpoint_after_raft_initialize_leaves_an_incomplete_formation() {
    assert_failpoint_leaves_an_incomplete_formation(Failpoint::AfterRaftInitialize);
}

#[test]
fn a_malformed_policy_is_refused_before_anything_durable_happens() {
    for stage in [FormStage::ParsePolicy, FormStage::ValidatePolicy] {
        let Run { left, ended, .. } = run(begin(true, None), Some(stage), CA_PEM);
        let (err, stop_replica) = ended.expect_err("a malformed policy is rejected");
        assert!(err.contains("bootstrap policy"), "{err}");
        assert!(!stop_replica);
        assert_eq!(
            left,
            FormationMarks::none(),
            "an operator typo must not cost a data directory"
        );
    }
}

#[test]
fn every_failure_after_the_intent_is_identified() {
    let all = run(begin(true, None), None, CA_PEM).taken;
    let intent = all.iter().position(|s| *s == FormStage::StampIntent).expect("an intent");
    let raft = all.iter().position(|s| *s == FormStage::InitializeVoter).expect("a history");
    for (i, stage) in all.iter().enumerate() {
        let Run { left, ended, .. } = run(begin(true, None), Some(*stage), CA_PEM);
        let (message, stop_replica) = ended.expect_err("a failing step");
        assert_eq!(left.failed(), i > intent, "{stage:?}");
        assert_eq!(stop_replica, i > raft, "{stage:?}");
        assert!(message.ends_with("no"), "{message}");
    }
}

#[test]
fn a_step_speaks_of_what_it_was_doing() {
    let text = |stage| {
        let ended = run(begin(false, None), Some(stage), CA_PEM).ended;
        ended.expect_err("a failing step").0
    };
    assert_eq!(
        text(FormStage::StampIntent),
        "stamping a formation intent into the data directory /var/lib/coppice: no"
    );
    assert_eq!(text(FormStage::Guard), "no");
    assert_eq!(
        text(FormStage::LoadTls),
        "reloading TLS material after installing the cluster-minted leaf: no"
    );
}

// ---- The operator's credential -----------------------------------------

fn request(csr: Option<&[u8]>, cn: Option<&str>) -> FormRequest {
    FormRequest {
        policy: None,
        operator_csr: csr.map(|b| b.to_vec()),
        operator_cn: cn.map(str::to_owned),
    }
}

#[test]
fn an_operator_has_a_default_name() {
    assert_eq!(operator_cn(&request(None, None)), DEFAULT_OPERATOR_CN);
    assert_eq!(DEFAULT_OPERATOR_CN, "day0-operator");
    assert_eq!(operator_cn(&request(None, Some("alice"))), "alice");
}

#[test]
fn a_credential_is_text_or_refused() {
    let minted = issue_operator_credential(
        &request(None, None),
        b"CA".to_vec(),
        Ok((b"CERT".to_vec(), Some(b"KEY".to_vec()))),
    )
    .expect("a credential");
    assert_eq!(minted.ca_pem, "CA");
    assert_eq!(minted.cert_pem, "CERT");
    assert_eq!(minted.key_pem.as_deref(), Some("KEY"));

    let signed =
        issue_operator_credential(&request(Some(b"CSR"), None), b"CA".to_vec(), Ok((vec![], None)))
            .expect("a credential");
    assert_eq!(signed.key_pem, None);

    let bad = vec![0xFF];
    let fault = |csr: Option<&[u8]>, ca: Vec<u8>, issued| {
        issue_operator_credential(&request(csr, None), ca, issued).expect_err("a fault")
    };
    assert_eq!(
        fault(None, bad.clone(), Ok((vec![], None))),
        "cluster CA bundle is not UTF-8: invalid utf-8 sequence of 1 bytes from index 0"
    );
    assert_eq!(
        fault(None, vec![], Ok((bad.clone(), None))),
        "issued operator certificate is not UTF-8: invalid utf-8 sequence of 1 bytes from index 0"
    );
    assert_eq!(
        fault(None, vec![], Ok((vec![], Some(bad)))),
        "minted operator key is not UTF-8: invalid utf-8 sequence of 1 bytes from index 0"
    );
    assert_eq!(fault(None, vec![], Err("no".into())), "minting an operator keypair: no");
    assert_eq!(fault(Some(b"CSR"), vec![], Err("no".into())), "signing the operator CSR: no");
}

#[test]
fn a_missing_signer_is_explained() {
    assert!(load_cluster_ca("/d", SignerFault::Unrecorded).contains("was not formed by"));
    let key = load_cluster_ca("/d", SignerFault::Key("enoent".into()));
    assert!(key.starts_with("loading the cluster CA key from /d"), "{key}");
    assert!(key.ends_with("enoent"), "{key}");
    assert_eq!(
        load_cluster_ca("/d", SignerFault::Signer("mismatch".into())),
        "loading the cluster CA for signing: mismatch"
    );
}

// ---- The guard against a second cluster ---------------------------------

fn answer(cluster: &str, initialized: bool) -> ProbeClusterResponse {
    ProbeClusterResponse {
        cluster_id: cluster.into(),
        history_id: vec![0xAB; 16],
        initialized,
        node_id: None,
        leader_hint: None,
        voters: vec![],
    }
}

#[test]
fn a_daemon_alone_in_discovery_may_form() {
    let own = vec!["c1:7071".to_string(), "c1:7071".to_string()];
    assert!(matches!(refuse_if_cluster_exists(&own, "c1:7071", false), GuardStep::Clear));
    assert!(matches!(refuse_if_cluster_exists(&vec![], "c1:7071", true), GuardStep::Clear));
}

#[test]
fn a_daemon_that_cannot_ask_refuses() {
    let seeds = vec!["c1:7071".to_string(), "c2:7071".to_string(), "c3:7071".to_string()];
    match refuse_if_cluster_exists(&seeds, "c1:7071", false) {
        GuardStep::Refuse(m) => {
            assert!(m.contains("2 candidate(s) (c2:7071, c3:7071)"), "{m}")
        }
        other => panic!("{other:?}"),
    }
    match refuse_if_cluster_exists(&seeds, "c1:7071", true) {
        GuardStep::Ask(asked) => assert_eq!(asked, vec!["c2:7071", "c3:7071"]),
        other => panic!("{other:?}"),
    }
}

#[test]
fn an_existing_cluster_is_not_formed_again() {
    let answers = vec![
        ("c2:7071".to_string(), answer(CLUSTER, false)),
        ("c3:7071".to_string(), answer("another", true)),
        ("c4:7071".to_string(), answer(CLUSTER, true)),
    ];
    let err = on_answers(&answers, CLUSTER).expect_err("a second cluster");
    assert!(err.starts_with("refusing to form: c4:7071 already reports"), "{err}");
    assert!(err.contains(&"ab".repeat(16)), "{err}");
    assert!(on_answers(&answers[..2].to_vec(), CLUSTER).is_ok());
}

#[test]
fn a_leaf_serves_its_host_and_the_local_names_once() {
    assert_eq!(
        leaf_sans(&Some("coord-1".into())),
        vec!["coord-1", "localhost", "127.0.0.1", "::1"]
    );
    assert_eq!(leaf_sans(&Some("127.0.0.1".into())), vec!["127.0.0.1", "localhost", "::1"]);
    assert_eq!(leaf_sans(&None), vec!["localhost", "127.0.0.1", "::1"]);
}

// ---- A formed replica ----------------------------------------------------

fn summary(leader: Option<u64>, ack: Option<u64>) -> ClusterSummary {
    ClusterSummary {
        local_id: 2,
        leader,
        term: 4,
        last_applied: 90,
        known_committed: 100,
        snapshot_last_index: None,
        members: vec![
            MemberSummary { id: 3, addr: "c3:7071".into(), voter: false },
            MemberSummary { id: 2, addr: "c2:7071".into(), voter: true },
            MemberSummary { id: 1, addr: "c1:7071".into(), voter: true },
        ],
        replication: vec![],
        millis_since_quorum_ack: ack,
    }
}

fn formed(summary: ClusterSummary) -> PhaseState {
    let mut s = state(FormationMarks::none());
    s.publish_formed(FormedReplica {
        history_id: vec![0xAA; 16],
        instance_uuid: vec![0x0B; 16],
        summary,
        applied_index: 90,
    });
    s
}

#[test]
fn a_formed_voter_is_ready_and_reports_its_voters() {
    let r = formed(summary(Some(1), None)).readyz(&None);
    assert_eq!(r.phase, ReadyzPhase::Voter);
    assert_eq!(r.cluster_id, CLUSTER);
    assert_eq!(r.history_id, Some("aa".repeat(16)));
    assert_eq!(r.instance_uuid, Some("0b".repeat(16)));
    assert_eq!(r.node_id, Some(2));
    assert_eq!(r.leader, Some(1));
    assert!(!r.is_leader);
    assert_eq!(r.replication_lag, 10);
    assert!(!r.leader_contact_stale);
    assert_eq!(r.reason, None);
    let voters: Vec<(u64, &str)> =
        r.voters.iter().map(|v| (v.node_id, v.address.as_str())).collect();
    assert_eq!(voters, vec![(1, "c1:7071"), (2, "c2:7071")]);
}

#[test]
fn a_replica_out_of_contact_says_so() {
    // A follower that knows no leader.
    let r = formed(summary(None, None)).readyz(&None);
    assert!(r.leader_contact_stale);
    assert!(r.reason.unwrap().contains("lost contact"));
    // A leader whose quorum fell silent, or never answered.
    assert!(formed(summary(Some(2), Some(1_001))).readyz(&None).leader_contact_stale);
    assert!(formed(summary(Some(2), None)).readyz(&None).leader_contact_stale);
    assert!(!formed(summary(Some(2), Some(1_000))).readyz(&None).leader_contact_stale);
    // A sole voter has no one to lose contact with.
    let mut alone = summary(Some(2), None);
    alone.members.retain(|m| m.id == 2);
    assert!(!formed(alone).readyz(&None).leader_contact_stale);
}

#[test]
fn a_learner_is_not_ready() {
    let mut s = summary(Some(1), None);
    s.local_id = 3;
    let r = formed(s).readyz(&None);
    assert_eq!(r.phase, ReadyzPhase::Learner);
    assert_eq!(r.reason.as_deref(), Some("this replica is not a voter"));
}

#[test]
fn a_formed_daemon_answers_a_prober_in_full() {
    let answer = formed(summary(Some(1), None)).probe();
    assert!(answer.initialized);
    assert_eq!(answer.history_id, vec![0xAA; 16]);
    assert_eq!(answer.node_id, Some(2));
    assert_eq!(answer.leader_hint, Some(1));
    let ids: Vec<u64> = answer.voters.iter().map(|v| v.node_id).collect();
    assert_eq!(ids, vec![1, 2]);
}

#[test]
fn a_superseded_replica_says_so_for_good() {
    let mut s = formed(summary(Some(1), None));
    s.publish_superseded("history-superseded: seen at c9".into());
    assert!(!s.is_formed());
    // Nothing that is published later brings it back.
    s.publish_formed(FormedReplica {
        history_id: vec![0xAA; 16],
        instance_uuid: vec![0x0B; 16],
        summary: summary(Some(1), None),
        applied_index: 90,
    });
    s.publish_failed(5);
    s.publish_superseded("another".into());
    let r = s.readyz(&None);
    assert_eq!(r.phase, ReadyzPhase::HistorySuperseded);
    assert_eq!(r.reason.as_deref(), Some("history-superseded: seen at c9"));
    assert!(!s.probe().initialized);
}

#[test]
fn readiness_shows_what_convergence_ran_into() {
    let mut s = formed(summary(Some(1), None));
    s.note(Notice::PromotionHold("full".into()));
    s.note(Notice::AdmissionRefusal("conflict".into()));
    s.note(Notice::Keep);
    let r = s.readyz(&None);
    assert_eq!(r.promotion_hold.as_deref(), Some("full"));
    assert_eq!(r.last_admission_refusal.as_deref(), Some("conflict"));
    assert_eq!(r.phase, ReadyzPhase::Voter);
    s.note(Notice::Clear);
    let r = s.readyz(&None);
    assert_eq!((r.promotion_hold, r.last_admission_refusal), (None, None));
}

#[test]
fn a_formation_that_dies_is_published() {
    let mut s = state(FormationMarks::none());
    s.publish_failed(5);
    assert_eq!(s.failed_at(), Some(5));
    assert_eq!(s.cluster_id(), CLUSTER);
}
