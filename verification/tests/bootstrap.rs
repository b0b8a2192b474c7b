//! Starting, parking, serving clients and shutting down.

use coppice_coordinator::bootstrap::boot::{
    begin, bootstrap, contact_staleness, log_layout, missing_tls_error, node_options, on_bound,
    run_with, BindNext, BindPlan, BindStage, Boot, Declared, LogLayout, StartIntent,
};
use coppice_coordinator::bootstrap::lifecycle::{shutdown_order, ShutdownStep};
use coppice_coordinator::bootstrap::park::{
    after_park, on_formed, park, AfterPark, ParkAct, ParkEvent, ParkOutcome, Parked,
};
use coppice_coordinator::clientedge::{
    drain, serve_connection, serve_tls, AcceptEvent, AcceptStep, ClusterCa, DrainStep, Handshake,
};
use coppice_coordinator::config::{
    default_agent_addr, default_client_addr, default_raft_addr, BackendKind, ClusterId, Config,
    DiscoveryConfig, ListenConfig, ObservabilityConfig, PacingConfig, RaftConfig, StaticBackend,
    TlsConfig, TokenKdfConfig,
};
use coppice_coordinator::failpoints::{
    gate_poll, gate_reached_marker, gate_release_marker, halt_marker, Failpoints, GateStep, ALL,
    ALL_GATES, API_SUBMIT_BEFORE_PROPOSE, JOIN_BEFORE_ADD_LEARNER,
};
use coppice_coordinator::formation::startup::{FormationMarks, StartupState};
use coppice_coordinator::limits::{
    EVENT_TAP_CAPACITY, QUEUE_BUCKET_INTERVAL_SECS, QUEUE_WINDOW_MAX_BUCKETS,
};
use coppice_coordinator::time::{is_within_reach, parse_duration, write_duration, Duration};

fn config() -> Config {
    Config {
        cluster_id: ClusterId { text: "cluster-a".into(), bytes: vec![1; 16] },
        data_dir: "/var/lib/coppice".into(),
        discovery: DiscoveryConfig {
            backend: BackendKind::Static,
            cluster_size: 3,
            removal_grace: Duration::from_secs(120),
            learner_expiry: Duration::from_secs(3600),
            static_backend: Some(StaticBackend { addrs: vec![] }),
            dns: None,
            file: None,
            ec2_asg: None,
        },
        listen: ListenConfig {
            client_addr: default_client_addr(),
            raft_addr: default_raft_addr(),
            agent_addr: default_agent_addr(),
            advertise_host: Some("coord-1".into()),
            admin_socket: None,
        },
        raft: RaftConfig::default(),
        pacing: PacingConfig::default(),
        token_kdf: TokenKdfConfig::default(),
        tls: TlsConfig { cert_path: "/c".into(), key_path: "/k".into(), ca_path: "/a".into() },
        client_tls: None,
        enrollment: None,
        sso: None,
        observability: ObservabilityConfig::default(),
    }
}

// ---- Binding --------------------------------------------------------------------

fn plan(tls_present: bool, registers: bool) -> BindPlan {
    BindPlan {
        agent_addr: "0.0.0.0:7072".into(),
        client_addr: "0.0.0.0:7070".into(),
        raft_addr: "0.0.0.0:7071".into(),
        data_dir: "/var/lib/coppice".into(),
        tls_present,
        registers,
    }
}

fn stages(plan: &BindPlan) -> Vec<BindStage> {
    let mut all = vec![begin(plan)];
    loop {
        match on_bound(plan, *all.last().unwrap(), Ok(())) {
            BindNext::Do(next) => all.push(next),
            BindNext::Done => return all,
            BindNext::Fail(e) => panic!("{e}"),
        }
    }
}

#[test]
fn a_start_binds_before_it_reads() {
    assert_eq!(
        stages(&plan(true, true)),
        vec![
            BindStage::LoadTls,
            BindStage::BindAgentGateway,
            BindStage::BindClient,
            BindStage::CreateDataDir,
            BindStage::BindRaft,
            BindStage::ReadRaftPort,
            BindStage::Register,
            BindStage::BindAdminSocket,
            BindStage::Inspect,
        ]
    );
    let plain = stages(&plan(false, false));
    assert_eq!(plain[0], BindStage::BindAgentGateway);
    assert!(!plain.contains(&BindStage::Register));
}

#[test]
fn a_failed_step_names_its_address() {
    match on_bound(&plan(true, true), BindStage::BindRaft, Err("in use".into())) {
        BindNext::Fail(e) => {
            assert_eq!(e, "binding raft/admin listener on 0.0.0.0:7071: in use")
        }
        other => panic!("{other:?}"),
    }
    match on_bound(&plan(true, true), BindStage::BindAdminSocket, Err("in use".into())) {
        BindNext::Fail(e) => assert_eq!(e, "in use"),
        other => panic!("{other:?}"),
    }
}

// ---- What the directory says ------------------------------------------------------

fn boot(startup: StartupState, marks: FormationMarks, declared: Declared, tls: bool) -> Boot {
    run_with(&config(), &startup, marks, declared, tls, &None)
}

fn formed() -> FormationMarks {
    FormationMarks { intent_at_us: Some(1), complete_at_us: Some(2) }
}

#[test]
fn an_empty_directory_parks_and_never_bootstraps_by_itself() {
    assert!(matches!(
        boot(StartupState::Empty, FormationMarks::none(), Declared::Nothing, true),
        Boot::Park
    ));
    assert!(matches!(
        boot(StartupState::Empty, FormationMarks::none(), Declared::Nothing, false),
        Boot::Park
    ));
    assert!(matches!(
        boot(StartupState::Empty, FormationMarks::none(), Declared::Join, true),
        Boot::Start { intent: StartIntent::Join, history_id } if history_id == vec![1; 16]
    ));
}

#[test]
fn a_stamped_directory_resumes_under_its_own_history() {
    let stamped = || StartupState::Resume { history_id: vec![9; 16] };
    assert!(matches!(
        boot(stamped(), formed(), Declared::Nothing, true),
        Boot::Start { intent: StartIntent::Restart, history_id } if history_id == vec![9; 16]
    ));
    assert!(matches!(
        boot(stamped(), FormationMarks::none(), Declared::Nothing, true),
        Boot::Refuse(m) if m.contains("wrong volume")
    ));
    match boot(stamped(), formed(), Declared::Nothing, false) {
        Boot::Refuse(m) => assert_eq!(m, missing_tls_error(&config().tls)),
        other => panic!("{other:?}"),
    }
}

#[test]
fn a_partial_formation_is_never_resumed() {
    for tls in [true, false] {
        match boot(
            StartupState::FormationFailed { intent_at_us: 3 },
            FormationMarks { intent_at_us: Some(3), complete_at_us: None },
            Declared::Bootstrap,
            tls,
        ) {
            Boot::FailStop { diagnostic } => {
                assert!(
                    diagnostic.starts_with("refusing to serve: formation started at 3us"),
                    "{diagnostic}"
                )
            }
            other => panic!("{other:?}"),
        }
    }
}

#[test]
fn an_embedder_starts_what_it_declares() {
    let (history, intent) =
        bootstrap(&config(), &StartupState::Empty, FormationMarks::none(), Declared::Bootstrap)
            .expect("a start");
    assert_eq!((history, intent), (vec![1; 16], StartIntent::Bootstrap));
    assert!(bootstrap(
        &config(),
        &StartupState::Resume { history_id: vec![9; 16] },
        FormationMarks::none(),
        Declared::Nothing
    )
    .is_err());
}

#[test]
fn consensus_is_started_as_configured() {
    let options = node_options(&config(), vec![9; 16], "coord-1:7071".into());
    assert_eq!(options.history_id, vec![9; 16]);
    assert_eq!(options.advertise_addr, "coord-1:7071");
    assert_eq!(options.election_timeout, Duration::from_millis(1500));
    assert_eq!(options.event_tap_capacity, EVENT_TAP_CAPACITY);
    assert_eq!(contact_staleness(&config()), Duration::from_secs(3));
    assert_eq!(log_layout("text"), Ok(LogLayout::Text));
    assert_eq!(log_layout("json"), Ok(LogLayout::Json));
    assert_eq!(
        log_layout("x\ny"),
        Err("unknown log_format \"x\\ny\"; expected \"text\" or \"json\"".to_string())
    );
}

// ---- Parking --------------------------------------------------------------------------

#[test]
fn only_a_request_forms() {
    assert!(matches!(
        park(Parked::Waiting, ParkEvent::Call, &None),
        (Parked::Forming, ParkAct::Form)
    ));
    for event in [ParkEvent::Stop, ParkEvent::Closed] {
        assert!(matches!(
            park(Parked::Waiting, event, &None),
            (Parked::Left(ParkOutcome::Shutdown), ParkAct::Nothing)
        ));
    }
    assert!(matches!(
        park(Parked::Forming, ParkEvent::Stop, &None),
        (Parked::Forming, ParkAct::Nothing)
    ));
}

#[test]
fn a_failed_formation_waits_or_stops_by_what_is_on_disk() {
    assert_eq!(on_formed(true, &StartupState::Empty), Parked::Left(ParkOutcome::Formed));
    assert_eq!(on_formed(false, &StartupState::Empty), Parked::Waiting);
    let stopped = on_formed(false, &StartupState::FormationFailed { intent_at_us: 4 });
    assert_eq!(stopped, Parked::Stopped { intent_at_us: 4, drained: false });
    match park(stopped, ParkEvent::Call, &Some("noon".into())) {
        (at, ParkAct::Answer(m)) => {
            assert_eq!(at, stopped);
            assert!(m.starts_with("formation started at noon never completed"), "{m}");
        }
        other => panic!("{other:?}"),
    }
    let (drained, _) = park(stopped, ParkEvent::Closed, &None);
    assert_eq!(drained, Parked::Stopped { intent_at_us: 4, drained: true });
    let (left, _) = park(drained, ParkEvent::Stop, &None);
    assert_eq!(left, Parked::Left(ParkOutcome::Failed { intent_at_us: 4 }));
    assert!(matches!(
        after_park(ParkOutcome::Failed { intent_at_us: 4 }, &None),
        AfterPark::Fail(m) if m.starts_with("refusing to serve: formation started at 4us")
    ));
    assert!(matches!(after_park(ParkOutcome::Formed, &None), AfterPark::Serve));
    assert!(matches!(after_park(ParkOutcome::Shutdown, &None), AfterPark::Exit));
}

#[test]
fn a_shutdown_goes_in_dependency_order() {
    assert_eq!(
        shutdown_order(true),
        vec![
            ShutdownStep::JoinAdminSocket,
            ShutdownStep::RemoveRegistration,
            ShutdownStep::StopTransport,
            ShutdownStep::StopConsensus,
            ShutdownStep::ReleaseHandles,
        ]
    );
    assert!(!shutdown_order(false).contains(&ShutdownStep::RemoveRegistration));
}

// ---- The client listener ----------------------------------------------------------------

#[test]
fn an_anchor_is_read_anew_at_each_connection() {
    assert_eq!(ClusterCa::none().current(), None);
    assert_eq!(ClusterCa::fixed(b"CA".to_vec()).current(), Some(b"CA".to_vec()));
    // What the views hold changes: nothing before formation, then a root, then
    // another.
    let recorded: std::cell::RefCell<Option<Vec<u8>>> = std::cell::RefCell::new(None);
    let ca = ClusterCa::from_views(|| recorded.borrow().clone());
    let provider = ca.provider();
    assert_eq!((ca.current(), provider()), (None, None));
    for root in [b"R1".to_vec(), b"R2".to_vec()] {
        *recorded.borrow_mut() = Some(root.clone());
        assert_eq!((ca.current(), provider()), (Some(root.clone()), Some(root)));
    }
}

#[test]
fn a_provider_gives_the_same_anchor_at_every_call() {
    let fixed = ClusterCa::fixed(b"CA".to_vec());
    let provider = fixed.provider();
    for _ in 0..3 {
        assert_eq!(provider(), Some(b"CA".to_vec()));
        assert_eq!(fixed.current(), provider());
    }
    let none = ClusterCa::none();
    let provider = none.provider();
    for _ in 0..3 {
        assert_eq!(provider(), None);
        assert_eq!(none.current(), None);
    }
}

#[test]
fn serving_returns_once_the_last_connection_ended() {
    assert_eq!(drain(2), DrainStep::Wait);
    assert_eq!(drain(1), DrainStep::Wait);
    assert_eq!(drain(0), DrainStep::Return);
}

#[test]
fn nothing_but_a_stop_takes_the_listener_down() {
    assert_eq!(serve_tls(AcceptEvent::Stop), AcceptStep::Drain);
    assert_eq!(serve_tls(AcceptEvent::Connection { configured: true }), AcceptStep::Serve);
    assert_eq!(serve_tls(AcceptEvent::Connection { configured: false }), AcceptStep::Drop);
    assert_eq!(serve_tls(AcceptEvent::Failed), AcceptStep::BackOff(20));
    assert_eq!(
        serve_connection(Handshake::Completed(Some(vec![vec![1]]))),
        Some(Some(vec![vec![1]]))
    );
    assert_eq!(serve_connection(Handshake::Completed(None)), Some(None));
    assert_eq!(serve_connection(Handshake::Failed), None);
    assert_eq!(serve_connection(Handshake::TimedOut), None);
}

// ---- Failpoints -----------------------------------------------------------------------------

#[test]
fn markers_lie_in_the_data_directory() {
    assert_eq!(
        halt_marker("/d", JOIN_BEFORE_ADD_LEARNER),
        "/d/failpoint-join-before-add-learner.halted"
    );
    assert_eq!(
        gate_reached_marker("/d/", API_SUBMIT_BEFORE_PROPOSE),
        "/d/failpoint-api-submit-before-propose.reached"
    );
    assert_eq!(
        gate_release_marker("/d", API_SUBMIT_BEFORE_PROPOSE),
        "/d/failpoint-api-submit-before-propose.release"
    );
    assert_eq!(
        ALL,
        ["join-before-add-learner", "join-add-learner-issued", "join-promote-voter-issued"]
    );
    assert_eq!(ALL_GATES, ["api-submit-before-propose"]);
}

#[test]
fn two_empty_lists_are_disarmed() {
    let disarmed = Failpoints::new(&vec![], &vec![], "/d");
    assert!(disarmed.armed.is_none());
    assert!(Failpoints::default().armed.is_none());
    assert!(!disarmed.is_armed(JOIN_BEFORE_ADD_LEARNER));
    assert_eq!(disarmed.halt_if_armed(JOIN_BEFORE_ADD_LEARNER), None);
    assert!(disarmed.gate_if_armed(API_SUBMIT_BEFORE_PROPOSE).is_none());
}

#[test]
fn a_failpoint_fires_for_its_own_name_and_kind() {
    let armed = Failpoints::new(
        &vec![JOIN_BEFORE_ADD_LEARNER.to_string()],
        &vec![API_SUBMIT_BEFORE_PROPOSE.to_string()],
        "/d",
    );
    assert!(armed.is_armed(JOIN_BEFORE_ADD_LEARNER));
    assert!(!armed.is_armed(API_SUBMIT_BEFORE_PROPOSE));
    assert!(armed.is_gate_armed(API_SUBMIT_BEFORE_PROPOSE));
    assert!(!armed.is_gate_armed(JOIN_BEFORE_ADD_LEARNER));
    assert_eq!(
        armed.halt_if_armed(JOIN_BEFORE_ADD_LEARNER).as_deref(),
        Some("/d/failpoint-join-before-add-learner.halted")
    );
    let files = armed.gate_if_armed(API_SUBMIT_BEFORE_PROPOSE).expect("armed");
    assert_ne!(files.reached, files.release);
}

#[test]
fn a_held_daemon_gives_up_in_the_end() {
    assert_eq!(gate_poll(true, &Duration::from_secs(99)), GateStep::Released);
    assert_eq!(gate_poll(false, &Duration::from_millis(59_999)), GateStep::Sleep(10));
    assert_eq!(gate_poll(false, &Duration::from_secs(60)), GateStep::GaveUp);
}

// ---- Spans ------------------------------------------------------------------------------------

#[test]
fn durations_are_read_and_written_with_their_units() {
    assert_eq!(parse_duration("1h 30m"), Ok(Duration::from_secs(5_400)));
    assert_eq!(parse_duration("250ms"), Ok(Duration::from_millis(250)));
    assert!(parse_duration("60").is_err());
    assert!(parse_duration("ten seconds").is_err());
    assert!(is_within_reach("1000000000000ms"));
    assert_eq!(parse_duration("1000000000000ms"), Ok(Duration::from_secs(1_000_000_000)));
    assert!(!is_within_reach("18446744073709551615s 1000000000ns"));
    assert!(!is_within_reach("18446744073709551615s 1s"));
    assert!(!is_within_reach("18446744073709551615s 1000000000.5ns"));
    // Any sum that a duration can hold is read, however it is written.
    for (raw, secs) in [
        ("1000000000000ms 1s", 1_000_000_001),
        ("18446744073709551614s 1s", 18_446_744_073_709_551_615),
        ("100000000000s100000000000 s", 200_000_000_000),
        (" 1.5h 30 min 1000 ms", 7_201),
    ] {
        assert!(is_within_reach(raw), "{raw}");
        assert_eq!(parse_duration(raw), Ok(Duration::from_secs(secs)), "{raw}");
    }
    for raw in ["1s x", "1s 30", "1h 30x", "5s x 3s", "5s.5s", "", "99999999999999999999s 1s"] {
        assert!(is_within_reach(raw), "{raw}");
        assert!(parse_duration(raw).is_err(), "{raw}");
    }
    assert_eq!(write_duration(&Duration::from_millis(90_500)), "1m 30s 500ms");
}

#[test]
fn the_windows_span_an_hour() {
    assert_eq!(QUEUE_BUCKET_INTERVAL_SECS * QUEUE_WINDOW_MAX_BUCKETS as u64, 3_600);
}
