//! The coordinator's configuration: what it refuses, and what it defaults to.

use coppice_coordinator::config::{
    default_agent_addr, default_client_addr, default_cluster_size, default_ec2_asg_timeout,
    default_learner_expiry, default_raft_addr, default_removal_grace, load,
    resolve_advertise_host, resolve_advertise_host_with, BackendKind, ClientTlsConfig,
    ClientTlsPosture, ClusterId, Config, DiscoveryConfig, DnsBackend, Ec2AsgBackend,
    EnrollmentConfig, FileBackend, ListenConfig, ObservabilityConfig, PacingConfig, RaftConfig,
    ResolvedConfig, SsoConfig, StaticBackend, TlsConfig, TokenKdfConfig,
};
use coppice_coordinator::time::Duration;

const PATH: &str = "/etc/coppice/coordinator.toml";

/// The example without its `[discovery]` tables: a section that names a
/// backend and nothing more.
fn discovery(backend: BackendKind) -> DiscoveryConfig {
    DiscoveryConfig {
        backend,
        cluster_size: default_cluster_size(),
        removal_grace: default_removal_grace(),
        learner_expiry: default_learner_expiry(),
        static_backend: None,
        dns: None,
        file: None,
        ec2_asg: None,
    }
}

fn tls() -> TlsConfig {
    TlsConfig {
        cert_path: "/etc/coppice/pki/node.crt".into(),
        key_path: "/etc/coppice/pki/node.key".into(),
        ca_path: "/etc/coppice/pki/ca.crt".into(),
    }
}

fn minimal() -> Config {
    let mut found = discovery(BackendKind::Static);
    found.static_backend = Some(StaticBackend { addrs: vec![] });
    Config {
        cluster_id: ClusterId {
            text: "cluster-5f0e6e6a-9c2a-4b8e-9a2b-1f4b6c8d9e10".into(),
            bytes: vec![
                0x5f, 0x0e, 0x6e, 0x6a, 0x9c, 0x2a, 0x4b, 0x8e, 0x9a, 0x2b, 0x1f, 0x4b, 0x6c, 0x8d,
                0x9e, 0x10,
            ],
        },
        data_dir: "/var/lib/coppice".into(),
        discovery: found,
        listen: ListenConfig {
            client_addr: default_client_addr(),
            raft_addr: default_raft_addr(),
            agent_addr: default_agent_addr(),
            advertise_host: Some("coord-1.example.com".into()),
            admin_socket: None,
        },
        raft: RaftConfig::default(),
        pacing: PacingConfig::default(),
        token_kdf: TokenKdfConfig::default(),
        tls: tls(),
        client_tls: Some(ClientTlsConfig { cert_path: None, key_path: None, insecure: true }),
        enrollment: None,
        sso: None,
        observability: ObservabilityConfig::default(),
    }
}

/// [`minimal`] with another `[discovery]` section.
fn with_discovery(found: DiscoveryConfig) -> Config {
    let mut config = minimal();
    config.discovery = found;
    config
}

/// Load on a host whose name and route are not needed.
fn load_here(config: Config) -> Result<ResolvedConfig, String> {
    load(PATH, config, None, false, None)
}

fn refused(config: Config) -> String {
    match load_here(config) {
        Err(e) => e,
        Ok(_) => panic!("must fail at load"),
    }
}

#[test]
fn minimal_config_applies_documented_defaults() {
    let config = minimal();

    // Explicit empty static backend; cluster_size defaults.
    assert_eq!(config.discovery.backend, BackendKind::Static);
    assert!(config.discovery.static_addrs().is_empty());
    assert_eq!(config.discovery.cluster_size, 3);
    assert_eq!(config.discovery.removal_grace, Duration::from_secs(120));
    assert_eq!(config.discovery.learner_expiry, Duration::from_secs(3600));
    config.discovery.validate().expect("empty static is valid");

    assert_eq!(config.listen.client_addr, default_client_addr());
    assert_eq!(config.listen.raft_addr, default_raft_addr());
    assert_eq!(config.listen.agent_addr, default_agent_addr());

    assert_eq!(config.raft.election_timeout, Duration::from_millis(1500));
    assert_eq!(config.raft.heartbeat_interval, Duration::from_millis(300));
    assert_eq!(config.raft.rpc_timeout, Duration::from_secs(1));
    assert_eq!(config.raft.snapshot_log_entries, 50_000);
    assert_eq!(config.raft.snapshot_keep_log_entries, 1000);

    assert!(config.sso.is_none());

    assert_eq!(config.observability.log_level, "info");
    assert_eq!(config.observability.log_format, "text");
    assert!(config.observability.otlp_endpoint.is_none());
}

#[test]
fn the_listeners_default_to_every_host() {
    for (addr, port) in
        [(default_client_addr(), 7070), (default_raft_addr(), 7071), (default_agent_addr(), 7072)]
    {
        assert_eq!(addr.host, "0.0.0.0");
        assert_eq!(addr.port, port);
    }
}

#[test]
fn static_backend_without_table_is_rejected() {
    let err = discovery(BackendKind::Static)
        .validate()
        .expect_err("static without a [discovery.static] table must be rejected");
    assert!(err.contains("[discovery.static]"), "{err}");
}

/// The health-stability interval defaults to 10s like the other durations of
/// its section.
#[test]
fn health_stability_interval_defaults_and_parses() {
    let mut config = minimal();
    assert_eq!(config.raft.health_stability_interval, Duration::from_secs(10));
    config.raft.health_stability_interval =
        coppice_coordinator::time::parse_duration("2s").expect("a duration");
    assert_eq!(config.raft.health_stability_interval, Duration::from_secs(2));
}

#[test]
fn token_kdf_defaults_and_parses() {
    let config = minimal();
    assert_eq!(config.token_kdf.m_cost_kib, 19456);
    assert_eq!(config.token_kdf.t_cost, 2);
    assert_eq!(config.token_kdf.p_cost, 1);

    let cheap = TokenKdfConfig { m_cost_kib: 8, t_cost: 1, p_cost: 1 };
    cheap.validate().expect("the cheapest cost the hash accepts");
}

/// Every field defaults to the production pacing.
#[test]
fn pacing_defaults_and_parses() {
    let config = minimal();
    assert_eq!(config.pacing.probe_interval, Duration::from_millis(300));
    assert_eq!(config.pacing.settled_interval, Duration::from_secs(3));
    assert_eq!(config.pacing.refusal_backoff, Duration::from_secs(30));
    assert_eq!(config.pacing.park_interval_min, Duration::from_millis(500));
    assert_eq!(config.pacing.park_interval_max, Duration::from_secs(15));
    assert_eq!(config.pacing.promote_poll_interval, Duration::from_millis(500));
    config.pacing.validate().expect("the defaults are valid");

    let quick = PacingConfig {
        probe_interval: Duration::from_millis(50),
        settled_interval: Duration::from_millis(250),
        refusal_backoff: Duration::from_secs(1),
        park_interval_min: Duration::from_millis(50),
        park_interval_max: Duration::from_millis(250),
        promote_poll_interval: Duration::from_millis(50),
    };
    quick.validate().expect("quick pacing is valid");
}

#[test]
fn advertised_raft_addr_composes_host_and_raft_port() {
    assert_eq!(minimal().listen.advertised_raft_addr(false), "coord-1.example.com:7071");
}

#[test]
fn the_bound_port_is_the_advertised_one() {
    assert_eq!(
        minimal().listen.advertised_raft_addr_on_port(false, 40123),
        "coord-1.example.com:40123"
    );
}

#[test]
fn dns_backend_parses_and_validates() {
    let mut found = discovery(BackendKind::Dns);
    found.dns = Some(DnsBackend { name: "coord.batch.example.com".into(), port: 7071 });
    found.validate().expect("dns config is valid");
    let dns = found.dns.expect("dns table present");
    assert_eq!(dns.name, "coord.batch.example.com");
    assert_eq!(dns.port, 7071);
}

#[test]
fn file_backend_parses_and_validates() {
    let mut found = discovery(BackendKind::File);
    found.file = Some(FileBackend { dir: "/var/run/coppice/discovery".into() });
    found.validate().expect("file config is valid");
    assert_eq!(found.file.expect("file table").dir, "/var/run/coppice/discovery");
}

#[test]
fn ec2_asg_backend_parses() {
    let mut found = discovery(BackendKind::Ec2Asg);
    found.ec2_asg = Some(Ec2AsgBackend {
        port: 7071,
        region: Some("us-east-1".into()),
        timeout: Duration::from_secs(5),
    });
    assert_eq!(found.backend, BackendKind::Ec2Asg);
    let ec2 = found.ec2_asg.as_ref().expect("ec2_asg table present");
    assert_eq!(ec2.port, 7071);
    assert_eq!(ec2.region.as_deref(), Some("us-east-1"));
    assert_eq!(ec2.timeout, Duration::from_secs(5));
    found.validate().expect("ec2-asg config is valid");
}

#[test]
fn ec2_asg_backend_defaults_region_and_timeout() {
    // `port` is the only required field; region defaults to the metadata
    // service's value (None here) and timeout to 3s.
    let ec2 = Ec2AsgBackend { port: 7071, region: None, timeout: default_ec2_asg_timeout() };
    assert_eq!(ec2.port, 7071);
    assert_eq!(ec2.region, None);
    assert_eq!(ec2.timeout, Duration::from_secs(3));
}

#[test]
fn ec2_asg_backend_without_table_is_rejected() {
    // Selecting the backend without its table (hence without `port`) is a
    // validation error, as it is for dns and file.
    let err = discovery(BackendKind::Ec2Asg)
        .validate()
        .expect_err("ec2-asg without a [discovery.ec2_asg] table must be rejected");
    assert!(err.contains("requires a [discovery.ec2_asg] table"), "{err}");
}

#[test]
fn backend_mismatch_with_foreign_table_is_rejected() {
    // backend = dns but a [discovery.static] table is present.
    let mut found = discovery(BackendKind::Dns);
    found.dns = Some(DnsBackend { name: "coord.example.com".into(), port: 7071 });
    found.static_backend = Some(StaticBackend { addrs: vec!["a:1".into()] });
    let err = found.validate().expect_err("foreign table rejected");
    assert!(err.contains("static"), "{err}");
}

#[test]
fn every_foreign_table_is_named() {
    let mut found = discovery(BackendKind::Dns);
    found.static_backend = Some(StaticBackend { addrs: vec![] });
    found.file = Some(FileBackend { dir: "/d".into() });
    let err = found.validate().expect_err("foreign tables rejected");
    assert!(err.contains("unrelated table(s) present: static, file"), "{err}");
}

#[test]
fn missing_required_backend_table_is_rejected() {
    let err = discovery(BackendKind::Dns).validate().expect_err("missing dns table rejected");
    assert!(err.contains("[discovery.dns]"), "{err}");
}

#[test]
fn load_resolves_and_validates() {
    // A minimal config with an explicit advertise_host: load() must resolve
    // it in place and pass discovery validation.
    let resolved = load_here(minimal()).expect("load succeeds");
    assert_eq!(resolved.config.listen.advertise_host.as_deref(), Some("coord-1.example.com"));
}

#[test]
fn load_resolves_an_absent_host_once() {
    let mut config = minimal();
    config.listen.advertise_host = None;
    let resolved = load(
        PATH,
        config.clone(),
        Some("coord-9.example.com".into()),
        true,
        Some("10.0.0.7".into()),
    )
    .expect("load succeeds");
    assert_eq!(resolved.config.listen.advertise_host.as_deref(), Some("coord-9.example.com"));
    let err = match load_here(config) {
        Err(e) => e,
        Ok(_) => panic!("nothing to advertise"),
    };
    assert!(err.contains("listen.advertise_host"), "{err}");
}

#[test]
fn load_rejects_invalid_discovery_section() {
    let err = refused(with_discovery(discovery(BackendKind::Dns)));
    assert!(err.contains("[discovery.dns]"), "{err}");
    assert!(err.contains(PATH), "{err}");
}

/// Every `[pacing]` value is a between-rounds sleep, so zero means a
/// busy-spinning background loop — a startup error, not a speed setting.
/// An inverted park ramp (min > max) is equally malformed.
#[test]
fn load_rejects_zero_and_inverted_pacing() {
    let mut config = minimal();
    config.pacing.probe_interval = Duration::from_secs(0);
    let err = refused(config);
    assert!(err.contains("probe_interval"), "{err}");

    let mut config = minimal();
    config.pacing.park_interval_min = Duration::from_secs(5);
    config.pacing.park_interval_max = Duration::from_secs(1);
    let err = refused(config);
    assert!(err.contains("park_interval_min"), "{err}");
    assert!(err.contains("park_interval_min (5s) exceeds park_interval_max (1s)"), "{err}");
}

#[test]
fn each_zero_interval_is_named() {
    let zero = Duration::from_secs(0);
    let base = PacingConfig::default();
    for (name, pacing) in [
        ("settled_interval", PacingConfig { settled_interval: zero, ..base }),
        ("refusal_backoff", PacingConfig { refusal_backoff: zero, ..base }),
        ("park_interval_min", PacingConfig { park_interval_min: zero, ..base }),
        ("park_interval_max", PacingConfig { park_interval_max: zero, ..base }),
        ("promote_poll_interval", PacingConfig { promote_poll_interval: zero, ..base }),
    ] {
        let err = pacing.validate().expect_err("a zero interval");
        assert!(err.contains(&format!("[pacing] {name} must be non-zero")), "{err}");
    }
}

/// A `[token_kdf]` the hash rejects must fail at load: the first mint can
/// be arbitrarily far from startup, and until then the daemon looks
/// healthy.
#[test]
fn load_rejects_argon2_refused_token_kdf() {
    let base = TokenKdfConfig::default();
    for bad in [
        TokenKdfConfig { t_cost: 0, ..base },
        TokenKdfConfig { p_cost: 0, ..base },
        // Below the floor of 8 KiB per lane.
        TokenKdfConfig { m_cost_kib: 7, ..base },
    ] {
        let mut config = minimal();
        config.token_kdf = bad;
        let err = refused(config);
        assert!(err.contains("[token_kdf]"), "{err}");
    }
}

#[test]
fn resolve_advertise_host_prefers_explicit_value() {
    assert_eq!(
        resolve_advertise_host(Some("coord-7.example.com"), None, false, None)
            .expect("explicit resolves"),
        "coord-7.example.com"
    );
}

// ---- the fallback chain, through injectable seams --------------------

#[test]
fn explicit_value_short_circuits_every_seam() {
    let got = resolve_advertise_host_with(
        Some("coord-7.example.com"),
        || panic!("hostname seam must not be consulted"),
        |_| panic!("resolution seam must not be consulted"),
        || panic!("route seam must not be consulted"),
    )
    .expect("explicit resolves");
    assert_eq!(got, "coord-7.example.com");
}

#[test]
fn resolvable_fqdn_hostname_is_chosen() {
    let got = resolve_advertise_host_with(
        None,
        || Some("coord-1.batch.example.com".to_string()),
        |host| {
            assert_eq!(host, "coord-1.batch.example.com");
            true
        },
        || panic!("route seam must not be consulted when the FQDN resolves"),
    )
    .expect("fqdn resolves");
    assert_eq!(got, "coord-1.batch.example.com");
}

#[test]
fn short_hostname_falls_through_to_the_default_route() {
    // A bare short name (no dot) is never published, even if it would
    // resolve locally — peers on other hosts generally cannot resolve it.
    let got = resolve_advertise_host_with(
        None,
        || Some("coord-1".to_string()),
        |_| panic!("a short name must not even be looked up"),
        || Some("10.0.0.7".to_string()),
    )
    .expect("route fallback");
    assert_eq!(got, "10.0.0.7");
}

#[test]
fn unresolvable_fqdn_falls_through_to_the_default_route() {
    let got = resolve_advertise_host_with(
        None,
        || Some("ghost.internal.example".to_string()),
        |_| false,
        || Some("10.0.0.7".to_string()),
    )
    .expect("route fallback");
    assert_eq!(got, "10.0.0.7");
}

#[test]
fn nothing_resolvable_is_an_error_naming_the_fix() {
    let err =
        resolve_advertise_host_with(None, || Some("coord-1".to_string()), |_| true, || None)
            .expect_err("no fallback left");
    assert!(err.contains("listen.advertise_host"), "{err}");
}

// ---- IPv6 advertised-address composition ------------------------------

#[test]
fn ipv6_advertise_host_is_bracketed_in_the_advertised_addr() {
    let mut listen = minimal().listen;
    listen.advertise_host = Some("2001:db8::1".into());
    assert_eq!(
        listen.advertised_raft_addr(true),
        "[2001:db8::1]:7071",
        "IPv6 hosts must compose the bracketed authority form"
    );
}

// ---- [client_tls]: the public listener's posture ----------------------

#[test]
fn client_tls_paths_resolve_to_the_tls_posture() {
    let mut config = minimal();
    config.client_tls = Some(ClientTlsConfig {
        cert_path: Some("/etc/coppice/pki/api.example.com.crt".into()),
        key_path: Some("/etc/coppice/pki/api.example.com.key".into()),
        insecure: false,
    });
    assert_eq!(
        config.client_tls_posture().expect("cert + key is a posture"),
        ClientTlsPosture::Tls {
            cert: "/etc/coppice/pki/api.example.com.crt".into(),
            key: "/etc/coppice/pki/api.example.com.key".into(),
        }
    );
}

#[test]
fn client_tls_insecure_resolves_to_the_plain_posture() {
    assert_eq!(
        minimal().client_tls_posture().expect("insecure is a posture"),
        ClientTlsPosture::Insecure
    );
}

/// Every way of not choosing — the table absent, empty, half-filled, or
/// claiming both modes — fails with a message naming both options.
#[test]
fn an_unstated_client_tls_posture_fails_naming_both_options() {
    let table = |cert: Option<&str>, key: Option<&str>, insecure: bool| {
        Some(ClientTlsConfig {
            cert_path: cert.map(str::to_owned),
            key_path: key.map(str::to_owned),
            insecure,
        })
    };
    let cases = [
        ("absent", None),
        ("empty", table(None, None, false)),
        ("cert only", table(Some("/x.crt"), None, false)),
        ("key only", table(None, Some("/x.key"), false)),
        ("both modes", table(Some("/x.crt"), Some("/x.key"), true)),
    ];
    for (label, section) in cases {
        let mut config = minimal();
        config.client_tls = section;
        let err = match load_here(config) {
            Err(e) => e,
            Ok(_) => panic!("{label}: an unstated posture must fail startup"),
        };
        assert!(err.contains("cert_path"), "{label}: {err}");
        assert!(err.contains("key_path"), "{label}: {err}");
        assert!(err.contains("insecure = true"), "{label}: {err}");
    }
}

fn enrollment(token: Option<&str>) -> EnrollmentConfig {
    EnrollmentConfig {
        endpoint: "https://c:7070".into(),
        insecure: false,
        token: token.map(str::to_owned),
        token_path: None,
    }
}

fn with_enrollment(section: EnrollmentConfig) -> Config {
    let mut config = minimal();
    config.enrollment = Some(section);
    config
}

#[test]
fn enrollment_https_is_valid_and_http_needs_the_opt_in() {
    let https = EnrollmentConfig {
        endpoint: "https://coord.example.com:7070".into(),
        insecure: false,
        token: None,
        token_path: Some("/etc/coppice/enroll-token".into()),
    };
    load_here(with_enrollment(https.clone())).expect("an https endpoint needs no opt-in");

    let mut http = https;
    http.endpoint = "http://coord.example.com:7070".into();
    let err = refused(with_enrollment(http.clone()));
    assert!(err.contains("insecure = true"), "{err}");
    assert!(err.contains(PATH), "{err}");

    http.insecure = true;
    load_here(with_enrollment(http)).expect("the opt-in accepts plain http");
}

#[test]
fn enrollment_needs_exactly_one_token_form() {
    let mut both = enrollment(Some("cpk_x"));
    both.token_path = Some("/t".into());
    let err = refused(with_enrollment(both));
    assert!(err.contains("exactly one"), "{err}");
    assert!(!err.contains("cpk_x"), "{err}");

    let err = refused(with_enrollment(enrollment(None)));
    assert!(err.contains("token_path"), "{err}");

    load_here(with_enrollment(enrollment(Some("cpk_x")))).expect("an inline token is one");
}

/// An inline enrollment token must never survive a rendering of the
/// configuration.
#[test]
fn an_inline_enrollment_token_never_reaches_the_startup_log() {
    let rendered = enrollment(Some("cpk_inline_startup_secret")).describe();
    assert!(!rendered.contains("cpk_"), "{rendered}");
    assert!(rendered.contains("redacted"), "{rendered}");
    assert_eq!(rendered, enrollment(Some("another")).describe());
    assert_eq!(
        rendered,
        "EnrollmentConfig { endpoint: \"https://c:7070\", insecure: false, \
         token: Some(<redacted>), token_path: None }"
    );
}

#[test]
fn an_absent_enrollment_section_is_fine() {
    // A formed voter, or one whose material comes from an external PKI,
    // never enrolls.
    let resolved = load_here(minimal()).expect("load");
    assert!(resolved.config.enrollment.is_none());
}

#[test]
fn the_admin_socket_lies_in_the_data_directory_by_default() {
    let mut config = minimal();
    config.sso = Some(SsoConfig {
        issuer: "https://sso.example.com/oidc".into(),
        client_id: "coppice".into(),
        client_secret_path: "/etc/coppice/oidc-secret".into(),
    });
    assert_eq!(config.admin_socket_path(), "/var/lib/coppice/admin.sock");
    config.listen.admin_socket = Some("/run/coppice.sock".into());
    assert_eq!(config.admin_socket_path(), "/run/coppice.sock");
}

#[test]
fn backends_spell_themselves_as_configured() {
    assert_eq!(BackendKind::Static.as_str(), "static");
    assert_eq!(BackendKind::Dns.as_str(), "dns");
    assert_eq!(BackendKind::File.as_str(), "file");
    assert_eq!(BackendKind::Ec2Asg.as_str(), "ec2-asg");
    assert_eq!(BackendKind::default(), BackendKind::Static);
}
