//! Parsing of the coordinator's command line.

use coppice_coordinator::cli::{AdminVerb, Cli, Command, Dispatch, RotateCaVerb};
use coppice_coordinator::time::Duration;

fn argv(args: &[&str]) -> Vec<String> {
    args.iter().map(|a| a.to_string()).collect()
}

/// Parse an invocation from a bare argv (program name first).
fn parse(args: &[&str]) -> Cli {
    Cli::try_parse_from(&argv(args)).expect("args should parse")
}

#[test]
fn default_run_takes_only_config() {
    let cli = parse(&["coppice-coordinator", "--config", "/etc/c.toml"]);
    assert!(cli.command.is_none());
    assert_eq!(cli.config.as_deref(), Some("/etc/c.toml"));
    // The run-path extraction yields the same config.
    let run = cli.run_args();
    assert_eq!(run.config, "/etc/c.toml");
}

#[test]
fn missing_config_on_run_path_is_an_error() {
    assert!(Cli::try_parse_from(&argv(&["coppice-coordinator"])).is_err());
}

/// Startup intent is derived from the data directory, so the
/// flags that used to declare it are gone — and gone loudly, because a
/// launch template still passing `--bootstrap` must fail to start rather
/// than silently mean something new.
#[test]
fn the_removed_intent_flags_are_rejected() {
    for flag in ["--bootstrap", "--join"] {
        assert!(
            Cli::try_parse_from(&argv(&[
                "coppice-coordinator",
                "--config",
                "/etc/c.toml",
                flag
            ]))
            .is_err(),
            "{flag} must no longer parse"
        );
    }
}

#[test]
fn admin_add_learner_parses() {
    let cli = parse(&[
        "coppice-coordinator",
        "admin",
        "--config",
        "/etc/c.toml",
        "add-learner",
        "--node-id",
        "7",
        "--addr",
        "coord-7:7071",
    ]);
    match cli.command {
        Some(Command::Admin(a)) => {
            assert_eq!(a.config, "/etc/c.toml");
            assert!(a.target.is_none());
            match a.verb {
                AdminVerb::AddLearner { node_id, addr } => {
                    assert_eq!(node_id, 7);
                    assert_eq!(addr, "coord-7:7071");
                }
                other => panic!("wrong verb: {other:?}"),
            }
        }
        other => panic!("expected admin subcommand, got {other:?}"),
    }
}

#[test]
fn admin_promote_parses_node_id_and_wait() {
    // No `--remove`: a caller never names a pair. The
    // removal a promotion may fold in is the leader's own
    // evidence-gated one, and a caller-named pair is `replace-voter`.
    let cli = parse(&[
        "coppice-coordinator",
        "admin",
        "--config",
        "/etc/c.toml",
        "--target",
        "coord-1:7071",
        "promote",
        "--node-id",
        "4",
        "--wait",
        "90s",
    ]);
    let Some(Command::Admin(a)) = cli.command else {
        panic!("expected admin subcommand");
    };
    assert_eq!(a.target.as_deref(), Some("coord-1:7071"));
    match a.verb {
        AdminVerb::Promote { node_id, wait } => {
            assert_eq!(node_id, 4);
            assert_eq!(wait, Duration::from_secs(90));
        }
        other => panic!("wrong verb: {other:?}"),
    }
}

#[test]
fn admin_replace_voter_parses_the_pair() {
    let cli = parse(&[
        "coppice-coordinator",
        "admin",
        "--config",
        "/etc/c.toml",
        "replace-voter",
        "--old",
        "2",
        "--new",
        "5",
    ]);
    let Some(Command::Admin(a)) = cli.command else {
        panic!("expected admin subcommand");
    };
    match a.verb {
        AdminVerb::ReplaceVoter { old, new } => {
            assert_eq!(old, 2);
            assert_eq!(new, 5);
        }
        other => panic!("wrong verb: {other:?}"),
    }
}

#[test]
fn admin_promote_defaults_wait_to_sixty_seconds() {
    let cli = parse(&[
        "coppice-coordinator",
        "admin",
        "--config",
        "/etc/c.toml",
        "promote",
        "--node-id",
        "4",
    ]);
    let Some(Command::Admin(a)) = cli.command else {
        panic!("expected admin subcommand");
    };
    match a.verb {
        AdminVerb::Promote { wait, .. } => assert_eq!(wait, Duration::from_secs(60)),
        other => panic!("wrong verb: {other:?}"),
    }
}

#[test]
fn admin_remove_parses() {
    let cli = parse(&[
        "coppice-coordinator",
        "admin",
        "--config",
        "/etc/c.toml",
        "remove",
        "--node-id",
        "9",
    ]);
    let Some(Command::Admin(a)) = cli.command else {
        panic!("expected admin subcommand");
    };
    match a.verb {
        AdminVerb::Remove { node_id } => assert_eq!(node_id, 9),
        other => panic!("wrong verb: {other:?}"),
    }
}

#[test]
fn admin_status_defaults_to_the_human_table() {
    let cli = parse(&[
        "coppice-coordinator",
        "admin",
        "--config",
        "/etc/c.toml",
        "status",
    ]);
    let Some(Command::Admin(a)) = cli.command else {
        panic!("expected admin subcommand");
    };
    assert!(matches!(a.verb, AdminVerb::Status { json: false }));
}

#[test]
fn admin_status_json_parses() {
    let cli = parse(&[
        "coppice-coordinator",
        "admin",
        "--config",
        "/etc/c.toml",
        "status",
        "--json",
    ]);
    let Some(Command::Admin(a)) = cli.command else {
        panic!("expected admin subcommand");
    };
    assert!(matches!(a.verb, AdminVerb::Status { json: true }));
}

/// `local-status` is a distinct verb from `status`: one is the daemon's
/// own readiness document over the Unix socket, the other the cluster-wide
/// membership document. Collapsing them would make the schema unstable.
#[test]
fn admin_local_status_parses_as_its_own_verb() {
    let cli = parse(&[
        "coppice-coordinator",
        "admin",
        "--config",
        "/etc/c.toml",
        "local-status",
    ]);
    let Some(Command::Admin(a)) = cli.command else {
        panic!("expected admin subcommand");
    };
    assert!(matches!(a.verb, AdminVerb::LocalStatus { json: false }));

    let cli = parse(&[
        "coppice-coordinator",
        "admin",
        "--config",
        "/etc/c.toml",
        "local-status",
        "--json",
    ]);
    let Some(Command::Admin(a)) = cli.command else {
        panic!("expected admin subcommand");
    };
    assert!(matches!(a.verb, AdminVerb::LocalStatus { json: true }));
}

#[test]
fn admin_set_address_parses() {
    let cli = parse(&[
        "coppice-coordinator",
        "admin",
        "--config",
        "/etc/c.toml",
        "set-address",
        "--node-id",
        "3",
        "--addr",
        "coord-3:7071",
    ]);
    let Some(Command::Admin(a)) = cli.command else {
        panic!("expected admin subcommand");
    };
    match a.verb {
        AdminVerb::SetAddress { node_id, addr } => {
            assert_eq!(node_id, 3);
            assert_eq!(addr, "coord-3:7071");
        }
        other => panic!("wrong verb: {other:?}"),
    }
}

#[test]
fn admin_reads_a_long_wait_in_several_spans() {
    let parsed = |wait: &str| {
        let line = ["coordinator", "admin", "--config", "c.toml", "promote", "--node-id", "7"];
        let mut args: Vec<String> = line.iter().map(|s| s.to_string()).collect();
        args.extend(["--wait".to_string(), wait.to_string()]);
        Cli::try_parse_from(&args)
    };
    match parsed("1000000000000ms 1s").expect("a wait").command {
        Some(Command::Admin(admin)) => match admin.verb {
            AdminVerb::Promote { wait, .. } => assert_eq!(wait, Duration::from_secs(1_000_000_001)),
            other => panic!("{other:?}"),
        },
        other => panic!("{other:?}"),
    }
    assert!(parsed("18446744073709551615s 1000000000ns").is_err());
}

#[test]
fn admin_rejects_a_bare_integer_wait() {
    assert!(Cli::try_parse_from(&argv(&[
        "coppice-coordinator",
        "admin",
        "--config",
        "/etc/c.toml",
        "promote",
        "--node-id",
        "4",
        "--wait",
        "60",
    ]))
    .is_err());
}

#[test]
fn a_value_may_be_joined_to_its_option() {
    let cli = parse(&["coppice-coordinator", "--config=/etc/c.toml"]);
    assert_eq!(cli.config.as_deref(), Some("/etc/c.toml"));
}

#[test]
fn an_option_given_twice_is_refused() {
    assert!(Cli::try_parse_from(&argv(&[
        "coppice-coordinator",
        "--config",
        "/a",
        "--config",
        "/b"
    ]))
    .is_err());
}

#[test]
fn numbers_must_be_numbers() {
    for id in ["seven", "-1", "18446744073709551616", ""] {
        assert!(
            Cli::try_parse_from(&argv(&[
                "coppice-coordinator",
                "admin",
                "--config",
                "/etc/c.toml",
                "remove",
                "--node-id",
                id
            ]))
            .is_err(),
            "{id:?}"
        );
    }
    let cli = parse(&[
        "coppice-coordinator",
        "admin",
        "--config",
        "/etc/c.toml",
        "remove",
        "--node-id",
        "18446744073709551615",
    ]);
    let Some(Command::Admin(a)) = cli.command else {
        panic!("expected admin subcommand");
    };
    assert!(matches!(a.verb, AdminVerb::Remove { node_id: u64::MAX }));
}

#[test]
fn an_unknown_verb_or_a_missing_one_is_refused() {
    for verb in ["demote", "--json", ""] {
        assert!(Cli::try_parse_from(&argv(&[
            "coppice-coordinator",
            "admin",
            "--config",
            "/etc/c.toml",
            verb
        ]))
        .is_err());
    }
    assert!(
        Cli::try_parse_from(&argv(&["coppice-coordinator", "admin", "--config", "/etc/c.toml"]))
            .is_err()
    );
}

#[test]
fn init_parses_its_options() {
    let cli = parse(&[
        "coppice-coordinator",
        "init",
        "--config",
        "/etc/c.toml",
        "--operator-cn",
        "alice",
        "--out-dir",
        "/root/day0",
    ]);
    match cli.dispatch() {
        Dispatch::Init(a) => {
            assert_eq!(a.config, "/etc/c.toml");
            assert_eq!(a.policy, None);
            assert_eq!(a.operator_csr, None);
            assert_eq!(a.operator_cn.as_deref(), Some("alice"));
            assert_eq!(a.out_dir.as_deref(), Some("/root/day0"));
        }
        other => panic!("wrong dispatch: {other:?}"),
    }
}

#[test]
fn the_default_dispatch_runs() {
    let cli = parse(&["coppice-coordinator", "--config", "/etc/c.toml"]);
    match cli.dispatch() {
        Dispatch::Run(run) => assert_eq!(run.config, "/etc/c.toml"),
        other => panic!("wrong dispatch: {other:?}"),
    }
}

#[test]
fn rotate_ca_parses_its_moves() {
    let verb = |args: &[&str]| {
        let mut all = vec!["coppice-coordinator", "admin", "--config", "/etc/c.toml", "rotate-ca"];
        all.extend(args);
        match parse(&all).command {
            Some(Command::Admin(a)) => match a.verb {
                AdminVerb::RotateCa { verb } => verb,
                other => panic!("wrong verb: {other:?}"),
            },
            other => panic!("expected admin subcommand, got {other:?}"),
        }
    };
    assert_eq!(verb(&["begin"]), RotateCaVerb::Begin);
    assert_eq!(verb(&["status", "--json"]), RotateCaVerb::Status { json: true });
    assert_eq!(verb(&["complete"]), RotateCaVerb::Complete { force: false });
    assert_eq!(verb(&["complete", "--force"]), RotateCaVerb::Complete { force: true });
}
