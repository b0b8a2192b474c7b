//! The discovery backends.

use coppice_coordinator::config::{
    BackendKind, DiscoveryConfig, DnsBackend, Ec2AsgBackend, FileBackend, StaticBackend,
};
use coppice_coordinator::discovery::dns::{DnsDiscovery, IpRecord, SrvRecord};
use coppice_coordinator::discovery::ec2_asg::{
    compose_candidates, group_instances, lifecycle_included, own_group, presence, private_ips,
    wanted, AsgInstance, Ec2AsgAttestor, Ec2AsgDiscovery, InstanceIdentity, Presence, Reported,
    Snapshot, ATTESTOR_SNAPSHOT_TTL_SECS,
};
use coppice_coordinator::discovery::file::{
    read_first_line, DirEntry, FileDiscovery, FileRegistration,
};
use coppice_coordinator::discovery::{build, Discovery};
use coppice_coordinator::time::Duration;

// ---- Lifecycle filter ----

#[test]
fn lifecycle_includes_pending_variants_and_inservice() {
    for state in ["Pending", "Pending:Wait", "Pending:Proceed", "InService"] {
        assert!(lifecycle_included(state), "{state} should be included");
    }
}

#[test]
fn lifecycle_excludes_terminating_standby_and_unknown() {
    for state in [
        "Terminating",
        "Terminating:Wait",
        "Terminating:Proceed",
        "Terminated",
        "Standby",
        "EnteringStandby",
        "Detaching",
        "Detached",
        "Warmed:Running",
        "Quarantined",
        "",
        "inservice", // case-sensitive: not the canonical spelling
    ] {
        assert!(!lifecycle_included(state), "{state:?} should be excluded");
    }
}

// ---- Candidate composition ----

fn inst(id: &str, state: &str) -> AsgInstance {
    AsgInstance { instance_id: id.into(), lifecycle_state: state.into() }
}

fn ip_map(pairs: &[(&str, &str)]) -> Vec<(String, String)> {
    pairs.iter().map(|(id, ip)| ((*id).to_owned(), (*ip).to_owned())).collect()
}

#[test]
fn compose_filters_by_lifecycle_and_composes_ip_port() {
    let members = vec![
        inst("i-1", "InService"),
        inst("i-2", "Pending:Wait"),
        inst("i-3", "Terminating:Wait"), // excluded
        inst("i-4", "Standby"),          // excluded
    ];
    let ips = ip_map(&[
        ("i-1", "10.0.0.1"),
        ("i-2", "10.0.0.2"),
        ("i-3", "10.0.0.3"),
        ("i-4", "10.0.0.4"),
    ]);
    let got = compose_candidates(&members, &ips, 7071);
    assert_eq!(got, vec!["10.0.0.1:7071", "10.0.0.2:7071"]);
}

#[test]
fn compose_drops_included_instance_with_no_ip() {
    let members = vec![inst("i-1", "InService"), inst("i-2", "Pending")];
    let ips = ip_map(&[("i-1", "10.0.0.1")]); // i-2 has no IP yet
    let got = compose_candidates(&members, &ips, 7071);
    assert_eq!(got, vec!["10.0.0.1:7071"]);
}

#[test]
fn compose_dedups_shared_ip_preserving_order() {
    // Two member records resolving to the same IP must not be dialed twice.
    let members = vec![inst("i-1", "InService"), inst("i-2", "InService")];
    let ips = ip_map(&[("i-1", "10.0.0.9"), ("i-2", "10.0.0.9")]);
    let got = compose_candidates(&members, &ips, 7071);
    assert_eq!(got, vec!["10.0.0.9:7071"]);
}

// ---- The backend against a canned service ----

struct MockApi {
    identity: InstanceIdentity,
    members: Vec<AsgInstance>,
    ips: Vec<(String, String)>,
}

impl MockApi {
    /// Only ever asked about lifecycle-included instances.
    fn private_ips(&self, instance_ids: &[String]) -> Vec<(String, String)> {
        self.ips.iter().filter(|(id, _)| instance_ids.contains(id)).cloned().collect()
    }
}

fn mock_backend() -> (MockApi, Ec2AsgDiscovery) {
    let api = MockApi {
        identity: InstanceIdentity { instance_id: "i-self".into(), region: "us-east-1".into() },
        members: vec![
            inst("i-1", "InService"),
            inst("i-2", "Pending:Wait"),
            inst("i-3", "Terminating"),
        ],
        ips: ip_map(&[("i-1", "10.0.0.1"), ("i-2", "10.0.0.2"), ("i-3", "10.0.0.3")]),
    };
    let region = api.identity.region.clone();
    (api, Ec2AsgDiscovery::new(7071, Some(region), Duration::from_secs(3)))
}

fn consult(api: &MockApi, backend: &mut Ec2AsgDiscovery, now: Duration) -> Vec<String> {
    let ips = api.private_ips(&wanted(&api.members));
    backend.candidates(&Some(api.members.clone()), &Some(ips), now)
}

#[test]
fn candidates_filters_and_composes_from_the_api() {
    let (api, mut backend) = mock_backend();
    assert_eq!(
        consult(&api, &mut backend, Duration::from_secs(1)),
        vec!["10.0.0.1:7071".to_string(), "10.0.0.2:7071".to_string()]
    );
}

#[test]
fn candidates_feed_the_attestor_snapshot() {
    let (api, mut backend) = mock_backend();
    let now = Duration::from_secs(1);
    // Before any consultation the snapshot is Unknown for every address.
    assert!(!backend.attestor.is_absent(1, "10.0.0.1:7071", &now));

    // After a consultation, i-1's address is present (not absent); a voter
    // whose membership address is not in the group is attested absent.
    let _ = consult(&api, &mut backend, now);
    assert!(!backend.attestor.is_absent(1, "10.0.0.1:7071", &now), "i-1 is in the group");
    assert!(
        backend.attestor.is_absent(2, "10.9.9.9:7071", &now),
        "10.9.9.9 is gone from the group"
    );
}

#[test]
fn a_failed_consultation_keeps_the_last_listing() {
    let (api, mut backend) = mock_backend();
    let now = Duration::from_secs(1);
    let _ = consult(&api, &mut backend, now);
    assert!(backend.candidates(&None, &None, Duration::from_secs(2)).is_empty());
    assert!(backend.candidates(&Some(vec![]), &None, Duration::from_secs(2)).is_empty());
    assert!(backend.attestor.is_absent(2, "10.9.9.9:7071", &Duration::from_secs(31)));
    assert!(!backend.attestor.is_absent(2, "10.9.9.9:7071", &Duration::from_secs(32)));
}

// ---- Attestor presence logic ----

fn ttl() -> Duration {
    Duration::from_secs(ATTESTOR_SNAPSHOT_TTL_SECS)
}

fn snapshot_of(addrs: &[&str], fetched_at: Option<Duration>) -> Snapshot {
    Snapshot { addrs: addrs.iter().map(|s| s.to_string()).collect(), fetched_at }
}

#[test]
fn presence_fresh_contains_is_present() {
    let now = Duration::from_secs(1_000);
    let snap = snapshot_of(&["10.0.0.1:7071"], Some(now));
    assert_eq!(presence(&snap, &ttl(), &now, "10.0.0.1:7071"), Presence::Present);
}

#[test]
fn presence_fresh_missing_is_absent() {
    let now = Duration::from_secs(1_000);
    let snap = snapshot_of(&["10.0.0.1:7071"], Some(now));
    assert_eq!(presence(&snap, &ttl(), &now, "10.9.9.9:7071"), Presence::Absent);
}

#[test]
fn presence_never_fetched_is_unknown() {
    let now = Duration::from_secs(1_000);
    let snap = snapshot_of(&["10.0.0.1:7071"], None);
    assert_eq!(presence(&snap, &ttl(), &now, "10.9.9.9:7071"), Presence::Unknown);
}

#[test]
fn presence_stale_snapshot_is_unknown() {
    // Fetched longer ago than the TTL: Unknown even for a missing address.
    let now = Duration::from_secs(1_000);
    let stale = Duration::from_secs(1_000 - (ATTESTOR_SNAPSHOT_TTL_SECS + 1));
    let snap = snapshot_of(&["10.0.0.1:7071"], Some(stale));
    assert_eq!(presence(&snap, &ttl(), &now, "10.9.9.9:7071"), Presence::Unknown);
}

#[test]
fn is_absent_conservative_when_snapshot_missing_or_stale() {
    let mut attestor = Ec2AsgAttestor::new(ttl());
    let now = Duration::from_secs(1_000);
    // No snapshot at all: cannot attest absence.
    assert!(!attestor.is_absent(42, "10.9.9.9:7071", &now));

    // Stale snapshot: still not absent (Unknown).
    attestor.snapshot.addrs = vec!["10.0.0.1:7071".to_string()];
    attestor.snapshot.fetched_at =
        Some(Duration::from_secs(1_000 - (ATTESTOR_SNAPSHOT_TTL_SECS + 1)));
    assert!(!attestor.is_absent(42, "10.9.9.9:7071", &now));
}

// ---- What the service reports ----

fn reported(id: Option<&str>, value: Option<&str>) -> Reported {
    Reported { instance_id: id.map(str::to_owned), value: value.map(str::to_owned) }
}

#[test]
fn the_first_named_group_is_ones_own() {
    let reports = vec![None, Some("blue".to_string()), Some("green".to_string())];
    assert_eq!(own_group("i-1", &reports), Ok("blue".to_string()));
    assert_eq!(
        own_group("i-1", &vec![None]),
        Err("instance i-1 is not a member of any auto scaling group".to_string())
    );
}

#[test]
fn half_reported_members_are_skipped_or_stateless() {
    let members = group_instances(&vec![
        reported(Some("i-1"), Some("InService")),
        reported(None, Some("InService")),
        reported(Some("i-2"), None),
    ]);
    assert_eq!(members.len(), 2);
    assert_eq!(members[0].instance_id, "i-1");
    assert_eq!(members[0].lifecycle_state, "InService");
    assert_eq!(members[1].instance_id, "i-2");
    assert_eq!(members[1].lifecycle_state, "");
}

#[test]
fn half_reported_addresses_are_left_out() {
    let ips = private_ips(&vec![
        reported(Some("i-1"), Some("10.0.0.1")),
        reported(Some("i-2"), None),
        reported(None, Some("10.0.0.3")),
        reported(Some("i-1"), Some("10.0.0.4")),
    ]);
    let members = vec![inst("i-1", "InService"), inst("i-2", "InService")];
    assert_eq!(compose_candidates(&members, &ips, 1), vec!["10.0.0.4:1"]);
}

// ---- Dns ----

#[test]
fn new_rejects_empty_name() {
    match DnsDiscovery::new("   ".into(), 7071) {
        Ok(_) => panic!("empty name should be rejected"),
        Err(err) => assert!(err.contains("empty"), "{err}"),
    }
}

#[test]
fn new_accepts_a_name_and_port() {
    let backend = match DnsDiscovery::new("coord.batch.example.com".into(), 7071) {
        Ok(backend) => backend,
        Err(err) => panic!("construction should succeed: {err}"),
    };
    assert_eq!(backend.name, "coord.batch.example.com");
    assert_eq!(backend.port, 7071);
}

#[test]
fn records_become_candidates_once_each() {
    let backend = DnsDiscovery::new("coord.example".into(), 7071).unwrap();
    let srv = vec![
        SrvRecord { target: "c1.example.".into(), port: 9000 },
        SrvRecord { target: "c2.example".into(), port: 9001 },
        SrvRecord { target: "c1.example".into(), port: 9000 },
    ];
    let ips = vec![
        IpRecord { ip: "10.0.0.1".into(), v6: false },
        IpRecord { ip: "fd00::1".into(), v6: true },
    ];
    assert_eq!(
        backend.candidates(&srv, &ips),
        vec!["c1.example:9000", "c2.example:9001", "10.0.0.1:7071", "[fd00::1]:7071"]
    );
    assert!(backend.candidates(&vec![], &vec![]).is_empty());
}

// ---- File ----

fn read(files: &[FileRegistration]) -> Vec<DirEntry> {
    files.iter().map(|f| DirEntry::File(Some(f.contents.clone()))).collect()
}

#[test]
fn round_trip_register_enumerate_remove() {
    let backend = FileDiscovery::new("/run/discovery".into());
    let mut dir: Vec<FileRegistration> = Vec::new();

    // Empty directory: no candidates.
    assert!(backend.candidates(&read(&dir)).is_empty());

    // Register one process; it becomes the single candidate.
    dir.push(FileRegistration::register("/run/discovery", "localhost:7071"));
    assert_eq!(backend.candidates(&read(&dir)), vec!["localhost:7071".to_string()]);

    // Explicit removal clears it.
    dir.pop();
    assert!(backend.candidates(&read(&dir)).is_empty());
}

#[test]
fn multiple_registrations_are_all_candidates() {
    let backend = FileDiscovery::new("/run/discovery".into());
    let a = FileRegistration::register("/run/discovery", "localhost:1");
    let b = FileRegistration::register("/run/discovery", "localhost:2");
    assert_ne!(a.path, b.path);

    let mut got = backend.candidates(&read(&[a, b]));
    got.sort();
    assert_eq!(got, vec!["localhost:1".to_string(), "localhost:2".to_string()]);
}

#[test]
fn a_registration_lies_under_a_fresh_random_name() {
    let reg = FileRegistration::register("/run/discovery", "localhost:7071");
    assert_eq!(reg.contents, "localhost:7071\n");
    let name = reg.path.strip_prefix("/run/discovery/").expect("in the directory");
    let parts: Vec<&str> = name.split('-').collect();
    assert_eq!(parts.iter().map(|p| p.len()).collect::<Vec<_>>(), vec![8, 4, 4, 4, 12]);
    assert!(name.chars().all(|c| c == '-' || c.is_ascii_digit() || ('a'..='f').contains(&c)));
    assert!(parts[2].starts_with('4'), "a random identifier of version four: {name}");
}

#[test]
fn stale_and_empty_files_are_tolerated() {
    let backend = FileDiscovery::new("/run/discovery".into());

    // A good registration, an empty file, and a subdirectory.
    let entries = vec![
        DirEntry::File(Some("coord-9:7071\n".into())),
        DirEntry::File(Some("".into())),
        DirEntry::Directory,
        DirEntry::File(None),
        DirEntry::File(Some("  \ncoord-8:7071\n".into())),
    ];

    // Only the good file contributes; the empty file and subdir are skipped.
    assert_eq!(backend.candidates(&entries), vec!["coord-9:7071".to_string()]);
}

#[test]
fn missing_directory_yields_empty_not_error() {
    let backend = FileDiscovery::new("/nonexistent/coppice/discovery/xyz".into());
    assert!(backend.candidates(&vec![]).is_empty());
}

#[test]
fn first_line_only_is_the_address() {
    let got = read_first_line("coord-1:7071\nignored second line\n");
    assert_eq!(got, Some("coord-1:7071".to_string()));
    assert_eq!(read_first_line("coord-1:7071\r\nrest"), Some("coord-1:7071".to_string()));
    assert_eq!(read_first_line("\u{2003}coord-1:7071\t"), Some("coord-1:7071".to_string()));
}

// ---- Choosing a backend ----

fn section(backend: BackendKind) -> DiscoveryConfig {
    DiscoveryConfig {
        backend,
        cluster_size: 3,
        removal_grace: Duration::from_secs(600),
        learner_expiry: Duration::from_secs(3600),
        static_backend: None,
        dns: None,
        file: None,
        ec2_asg: None,
    }
}

#[test]
fn each_section_builds_its_backend() {
    let mut cfg = section(BackendKind::Static);
    cfg.static_backend = Some(StaticBackend { addrs: vec!["a:1".into(), "b:2".into()] });
    assert!(cfg.validate().is_ok());
    match build(&cfg) {
        Ok(Discovery::Static(addrs)) => assert_eq!(addrs, vec!["a:1", "b:2"]),
        other => panic!("{other:?}"),
    }
    // Without a list there is nobody to find, and a foreign table is no matter.
    let mut cfg = section(BackendKind::Static);
    cfg.file = Some(FileBackend { dir: "/run/discovery".into() });
    assert!(matches!(build(&cfg), Ok(Discovery::Static(addrs)) if addrs.is_empty()));

    let mut cfg = section(BackendKind::Dns);
    cfg.dns = Some(DnsBackend { name: "coord.example".into(), port: 7071 });
    assert!(cfg.validate().is_ok());
    match build(&cfg) {
        Ok(Discovery::Dns(d)) => assert_eq!((d.name.as_str(), d.port), ("coord.example", 7071)),
        other => panic!("{other:?}"),
    }

    let mut cfg = section(BackendKind::File);
    cfg.file = Some(FileBackend { dir: "/run/discovery".into() });
    assert!(cfg.validate().is_ok());
    match build(&cfg) {
        Ok(found) => {
            assert!(!found.attests_liveness());
            assert!(matches!(found, Discovery::File(f) if f.dir == "/run/discovery"));
        }
        other => panic!("{other:?}"),
    }

    let mut cfg = section(BackendKind::Ec2Asg);
    cfg.ec2_asg =
        Some(Ec2AsgBackend { port: 7071, region: None, timeout: Duration::from_secs(3) });
    assert!(cfg.validate().is_ok());
    assert!(build(&cfg).expect("a backend").attests_liveness());
}
