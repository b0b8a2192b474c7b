//! From a configuration to a replica, or to the decision not to have one.

use vstd::prelude::*;
use vstd::string::*;

use crate::config::{Config, TlsConfig};
use crate::formation::phase;
use crate::formation::phase::failed_diagnostic;
use crate::formation::startup::{resumed_history, FormationMarks, StartupState};
use crate::limits::EVENT_TAP_CAPACITY;
use crate::text;
use crate::time;
use crate::time::Duration;
use crate::wire::copy_bytes;

verus! {

// ---------------------------------------------------------------------------
// What is bound first
// ---------------------------------------------------------------------------

/// One step before the data directory is read.
#[derive(Debug, Clone, Copy, PartialEq, Eq, Structural)]
pub enum BindStage {
    /// Load the TLS material, when all of it is there.
    LoadTls,
    BindAgentGateway,
    BindClient,
    CreateDataDir,
    BindRaft,
    ReadRaftPort,
    /// Register in the discovery directory, when one is configured.
    Register,
    BindAdminSocket,
    Inspect,
}

/// What the steps depend on.
#[derive(Debug, Clone)]
pub struct BindPlan {
    pub agent_addr: String,
    pub client_addr: String,
    pub raft_addr: String,
    pub data_dir: String,
    /// Whether certificate, key and bundle all exist.
    pub tls_present: bool,
    /// Whether discovery goes through a directory.
    pub registers: bool,
}

/// The first step.
pub open spec fn first_bind(plan: BindPlan) -> BindStage {
    if plan.tls_present {
        BindStage::LoadTls
    } else {
        BindStage::BindAgentGateway
    }
}

/// The step after one that succeeded; none after the last.
pub open spec fn next_bind(plan: BindPlan, stage: BindStage) -> Option<BindStage> {
    match stage {
        BindStage::LoadTls => Some(BindStage::BindAgentGateway),
        BindStage::BindAgentGateway => Some(BindStage::BindClient),
        BindStage::BindClient => Some(BindStage::CreateDataDir),
        BindStage::CreateDataDir => Some(BindStage::BindRaft),
        BindStage::BindRaft => Some(BindStage::ReadRaftPort),
        BindStage::ReadRaftPort => if plan.registers {
            Some(BindStage::Register)
        } else {
            Some(BindStage::BindAdminSocket)
        },
        BindStage::Register => Some(BindStage::BindAdminSocket),
        BindStage::BindAdminSocket => Some(BindStage::Inspect),
        BindStage::Inspect => None,
    }
}

/// What a failure of a step is told as; nothing where it speaks for itself.
pub open spec fn bind_context(plan: BindPlan, stage: BindStage) -> Option<Seq<char>> {
    match stage {
        BindStage::LoadTls => Some("loading coordinator TLS material (config [tls])"@),
        BindStage::BindAgentGateway => Some(
            "binding agent gateway listener on "@ + plan.agent_addr@,
        ),
        BindStage::BindClient => Some("binding client API listener on "@ + plan.client_addr@),
        BindStage::CreateDataDir => Some(
            "creating coordinator data directory "@ + plan.data_dir@,
        ),
        BindStage::BindRaft => Some("binding raft/admin listener on "@ + plan.raft_addr@),
        BindStage::ReadRaftPort => Some("reading the bound raft/admin listener address"@),
        BindStage::Register => Some("registering in the file-discovery directory"@),
        BindStage::BindAdminSocket => None,
        BindStage::Inspect => Some("reading the manifest in "@ + plan.data_dir@),
    }
}

/// What comes after a step.
#[derive(Debug, Clone)]
pub enum BindNext {
    Do(BindStage),
    Done,
    Fail(String),
}

/// The first step.
pub fn begin(plan: &BindPlan) -> (r: BindStage)
    ensures
        r == first_bind(*plan),
{
    if plan.tls_present {
        BindStage::LoadTls
    } else {
        BindStage::BindAgentGateway
    }
}

/// A step ended.
pub fn on_bound(plan: &BindPlan, stage: BindStage, outcome: Result<(), String>) -> (r: BindNext)
    ensures
        match outcome {
            Ok(_) => match next_bind(*plan, stage) {
                Some(next) => r == BindNext::Do(next),
                None => r is Done,
            },
            Err(e) => r matches BindNext::Fail(m) && m@ == (match bind_context(*plan, stage) {
                Some(c) => c + ": "@ + e@,
                None => e@,
            }),
        },
{
    if let Err(e) = outcome {
        let context = match stage {
            BindStage::LoadTls => Some(
                "loading coordinator TLS material (config [tls])".to_owned(),
            ),
            BindStage::BindAgentGateway => Some(
                "binding agent gateway listener on ".to_owned().concat(plan.agent_addr.as_str()),
            ),
            BindStage::BindClient => Some(
                "binding client API listener on ".to_owned().concat(plan.client_addr.as_str()),
            ),
            BindStage::CreateDataDir => Some(
                "creating coordinator data directory ".to_owned().concat(plan.data_dir.as_str()),
            ),
            BindStage::BindRaft => Some(
                "binding raft/admin listener on ".to_owned().concat(plan.raft_addr.as_str()),
            ),
            BindStage::ReadRaftPort => Some(
                "reading the bound raft/admin listener address".to_owned(),
            ),
            BindStage::Register => Some("registering in the file-discovery directory".to_owned()),
            BindStage::BindAdminSocket => None,
            BindStage::Inspect => Some(
                "reading the manifest in ".to_owned().concat(plan.data_dir.as_str()),
            ),
        };
        return BindNext::Fail(
            match context {
                Some(c) => c.concat(": ").concat(e.as_str()),
                None => e,
            },
        );
    }
    match stage {
        BindStage::LoadTls => BindNext::Do(BindStage::BindAgentGateway),
        BindStage::BindAgentGateway => BindNext::Do(BindStage::BindClient),
        BindStage::BindClient => BindNext::Do(BindStage::CreateDataDir),
        BindStage::CreateDataDir => BindNext::Do(BindStage::BindRaft),
        BindStage::BindRaft => BindNext::Do(BindStage::ReadRaftPort),
        BindStage::ReadRaftPort => if plan.registers {
            BindNext::Do(BindStage::Register)
        } else {
            BindNext::Do(BindStage::BindAdminSocket)
        },
        BindStage::Register => BindNext::Do(BindStage::BindAdminSocket),
        BindStage::BindAdminSocket => BindNext::Do(BindStage::Inspect),
        BindStage::Inspect => BindNext::Done,
    }
}

/// Whether these are the steps of one start, in order.
pub open spec fn bind_run(plan: BindPlan, run: Seq<BindStage>) -> bool {
    &&& run.len() > 0
    &&& run[0] == first_bind(plan)
    &&& forall|i: int|
        0 <= i < run.len() - 1 ==> next_bind(plan, #[trigger] run[i]) == Some(run[i + 1])
}

/// No address is published before its port is known: a registration always
/// comes right after the bound port was read.
pub proof fn registration_follows_the_bound_port(plan: BindPlan, run: Seq<BindStage>, at: int)
    requires
        bind_run(plan, run),
        0 <= at < run.len(),
        run[at] == BindStage::Register,
    ensures
        at >= 2,
        run[at - 1] == BindStage::ReadRaftPort,
        run[at - 2] == BindStage::BindRaft,
{
    assert(next_bind(plan, run[at - 1]) == Some(run[at - 1 + 1]));
    assert(at - 1 >= 1);
    assert(next_bind(plan, run[at - 2]) == Some(run[at - 2 + 1]));
}

/// The data directory is read last: the listeners and the admin socket are
/// bound by then, whatever the directory goes on to say.
pub proof fn everything_is_bound_before_the_directory_is_read(
    plan: BindPlan,
    run: Seq<BindStage>,
    at: int,
)
    requires
        bind_run(plan, run),
        0 <= at < run.len(),
        run[at] == BindStage::Inspect,
    ensures
        at == run.len() - 1,
        run.contains(BindStage::BindAdminSocket),
        run.contains(BindStage::BindRaft),
        run.contains(BindStage::BindClient),
        run.contains(BindStage::BindAgentGateway),
{
    if at < run.len() - 1 {
        assert(next_bind(plan, run[at]) == Some(run[at + 1]));
    }
    assert(next_bind(plan, run[at - 1]) == Some(run[at - 1 + 1]));
    assert(run[at - 1] == BindStage::BindAdminSocket);
    assert(next_bind(plan, run[at - 2]) == Some(run[at - 2 + 1]));
    let port = if run[at - 2] == BindStage::Register {
        assert(next_bind(plan, run[at - 3]) == Some(run[at - 3 + 1]));
        at - 3
    } else {
        at - 2
    };
    assert(run[port] == BindStage::ReadRaftPort);
    assert(next_bind(plan, run[port - 1]) == Some(run[port - 1 + 1]));
    assert(run[port - 1] == BindStage::BindRaft);
    assert(next_bind(plan, run[port - 2]) == Some(run[port - 2 + 1]));
    assert(run[port - 2] == BindStage::CreateDataDir);
    assert(next_bind(plan, run[port - 3]) == Some(run[port - 3 + 1]));
    assert(run[port - 3] == BindStage::BindClient);
    assert(next_bind(plan, run[port - 4]) == Some(run[port - 4 + 1]));
    assert(run[port - 4] == BindStage::BindAgentGateway);
}

// ---------------------------------------------------------------------------
// What the directory makes of the daemon
// ---------------------------------------------------------------------------

/// A start an embedder declares for an empty directory. A daemon declares
/// nothing.
#[derive(Debug, Clone, Copy, PartialEq, Eq, Structural)]
pub enum Declared {
    Nothing,
    Bootstrap,
    Join,
}

/// How consensus is brought up.
#[derive(Debug, Clone, Copy, PartialEq, Eq, Structural)]
pub enum StartIntent {
    Bootstrap,
    Join,
    Restart,
}

/// What becomes of a start.
#[derive(Debug, Clone)]
pub enum Boot {
    /// Serve the closed surface until told to stop, then exit with this.
    FailStop { diagnostic: String },
    /// Bring up consensus under this history.
    Start { history_id: Vec<u8>, intent: StartIntent },
    /// Wait for a cluster to be formed here.
    Park,
    /// Do not start.
    Refuse(String),
}

/// What serving consensus without TLS material is refused with.
pub open spec fn missing_tls_text(tls: TlsConfig) -> Seq<char> {
    "this data directory holds a cluster but the [tls] material is missing (cert "@ + tls.cert_path@
        + ", key "@ + tls.key_path@ + ", ca "@ + tls.ca_path@
        + "); a coordinator serving consensus must have valid machine credentials (ADR 0011)"@
}

/// What serving consensus without TLS material is refused with.
pub fn missing_tls_error(tls: &TlsConfig) -> (r: String)
    ensures
        r@ == missing_tls_text(*tls),
{
    "this data directory holds a cluster but the [tls] material is missing (cert ".to_owned().concat(
        tls.cert_path.as_str(),
    ).concat(", key ").concat(tls.key_path.as_str()).concat(", ca ").concat(
        tls.ca_path.as_str(),
    ).concat(
        "); a coordinator serving consensus must have valid machine credentials (ADR 0011)",
    )
}

/// The text of a stopped formation, as an exit gives it.
pub open spec fn refusing_text(intent_at_us: i64, shown: Option<Seq<char>>) -> Seq<char> {
    "refusing to serve: "@ + phase::failed_text(phase::instant_text(intent_at_us, shown))
}

/// The view of an optional text.
pub open spec fn opt_view(s: Option<String>) -> Option<Seq<char>> {
    match s {
        Some(s) => Some(s@),
        None => None,
    }
}

/// What a wrong volume is refused with, if the stamp is one.
pub open spec fn wrong_volume(cfg: Config, stamped: Seq<u8>, marks: FormationMarks) -> Option<
    Seq<char>,
> {
    if marks.complete_at_us is None && stamped != cfg.cluster_id.bytes@ {
        Some(
            "the data directory "@ + cfg.data_dir@ + " is stamped for history "@ + text::hex_of(
                stamped,
            ) + " but this config's cluster_id derives "@ + text::hex_of(cfg.cluster_id.bytes@)
                + " — wrong volume or cross-cluster mixup; refusing to start (ADR 0016)"@,
        )
    } else {
        None
    }
}

/// What becomes of a start, from what is on disk.
///
/// A dangling intent stops the daemon for good. A stamped directory is resumed
/// under its own history. An empty one parks, and never forms a cluster by
/// itself. Whatever serves consensus needs TLS material.
pub fn run_with(
    cfg: &Config,
    startup: &StartupState,
    marks: FormationMarks,
    declared: Declared,
    tls_present: bool,
    shown: &Option<String>,
) -> (r: Boot)
    ensures
        match *startup {
            StartupState::FormationFailed { intent_at_us } => r matches Boot::FailStop {
                diagnostic,
            } && diagnostic@ == refusing_text(intent_at_us, opt_view(*shown)),
            StartupState::Resume { history_id } => if !tls_present {
                r matches Boot::Refuse(m) && m@ == missing_tls_text(cfg.tls)
            } else {
                match wrong_volume(*cfg, history_id@, marks) {
                    Some(text) => r matches Boot::Refuse(m) && m@ == text,
                    None => r matches Boot::Start { history_id: h, intent } && h@ == history_id@
                        && intent == StartIntent::Restart,
                }
            },
            StartupState::Empty => match declared {
                Declared::Nothing => r is Park,
                _ => if !tls_present {
                    r matches Boot::Refuse(m) && m@ == missing_tls_text(cfg.tls)
                } else {
                    r matches Boot::Start { history_id: h, intent } && h@ == cfg.cluster_id.bytes@
                        && intent == (if declared == Declared::Bootstrap {
                        StartIntent::Bootstrap
                    } else {
                        StartIntent::Join
                    })
                },
            },
        },
{
    match startup {
        StartupState::FormationFailed { intent_at_us } => Boot::FailStop {
            diagnostic: "refusing to serve: ".to_owned().concat(
                failed_diagnostic(*intent_at_us, shown).as_str(),
            ),
        },
        StartupState::Resume { history_id } => {
            if !tls_present {
                return Boot::Refuse(missing_tls_error(&cfg.tls));
            }
            match resumed_history(cfg.data_dir.as_str(), &cfg.cluster_id.bytes, history_id, marks) {
                Ok(history_id) => Boot::Start { history_id, intent: StartIntent::Restart },
                Err(e) => Boot::Refuse(e),
            }
        },
        StartupState::Empty => {
            let intent = match declared {
                Declared::Nothing => return Boot::Park,
                Declared::Bootstrap => StartIntent::Bootstrap,
                Declared::Join => StartIntent::Join,
            };
            if !tls_present {
                return Boot::Refuse(missing_tls_error(&cfg.tls));
            }
            Boot::Start { history_id: copy_bytes(&cfg.cluster_id.bytes), intent }
        },
    }
}

/// How an embedder that holds TLS material starts a replica, without parking:
/// under what it declares, or as a restart. A resumed directory keeps the
/// history of its stamp.
pub fn bootstrap(
    cfg: &Config,
    startup: &StartupState,
    marks: FormationMarks,
    declared: Declared,
) -> (r: Result<(Vec<u8>, StartIntent), String>)
    ensures
        ({
            let intent = match declared {
                Declared::Bootstrap => StartIntent::Bootstrap,
                Declared::Join => StartIntent::Join,
                Declared::Nothing => StartIntent::Restart,
            };
            match *startup {
                StartupState::Resume { history_id } => match wrong_volume(
                    *cfg,
                    history_id@,
                    marks,
                ) {
                    Some(text) => r matches Err(e) && e@ == text,
                    None => r matches Ok(p) && p.0@ == history_id@ && p.1 == intent,
                },
                _ => r matches Ok(p) && p.0@ == cfg.cluster_id.bytes@ && p.1 == intent,
            }
        }),
{
    let intent = match declared {
        Declared::Bootstrap => StartIntent::Bootstrap,
        Declared::Join => StartIntent::Join,
        Declared::Nothing => StartIntent::Restart,
    };
    match startup {
        StartupState::Resume { history_id } => match resumed_history(
            cfg.data_dir.as_str(),
            &cfg.cluster_id.bytes,
            history_id,
            marks,
        ) {
            Ok(history_id) => Ok((history_id, intent)),
            Err(e) => Err(e),
        },
        _ => Ok((copy_bytes(&cfg.cluster_id.bytes), intent)),
    }
}

/// How stale a leader's quorum acknowledgment may be: twice the election
/// timeout, past which a healthy follower would have called an election.
pub fn contact_staleness(cfg: &Config) -> (r: Duration)
    ensures
        r@ == (if cfg.raft.election_timeout@ * 2 > time::LONGEST {
            time::LONGEST as nat
        } else {
            cfg.raft.election_timeout@ * 2
        }),
{
    cfg.raft.election_timeout.saturating_mul(2)
}

/// What consensus is started with.
#[derive(Debug, Clone)]
pub struct NodeOptions {
    pub history_id: Vec<u8>,
    pub data_dir: String,
    pub advertise_addr: String,
    pub election_timeout: Duration,
    pub heartbeat_interval: Duration,
    pub rpc_timeout: Duration,
    pub snapshot_log_entries: u64,
    pub snapshot_keep_log_entries: u64,
    pub event_tap_capacity: usize,
}

/// What consensus is started with. There is no node identity here: it is
/// minted once and read from the stamp ever after.
pub fn node_options(cfg: &Config, history_id: Vec<u8>, advertise_addr: String) -> (r: NodeOptions)
    ensures
        r.history_id == history_id,
        r.advertise_addr == advertise_addr,
        r.data_dir@ == cfg.data_dir@,
        r.election_timeout == cfg.raft.election_timeout,
        r.heartbeat_interval == cfg.raft.heartbeat_interval,
        r.rpc_timeout == cfg.raft.rpc_timeout,
        r.snapshot_log_entries == cfg.raft.snapshot_log_entries,
        r.snapshot_keep_log_entries == cfg.raft.snapshot_keep_log_entries,
        r.event_tap_capacity == EVENT_TAP_CAPACITY,
{
    NodeOptions {
        history_id,
        data_dir: cfg.data_dir.clone(),
        advertise_addr,
        election_timeout: cfg.raft.election_timeout,
        heartbeat_interval: cfg.raft.heartbeat_interval,
        rpc_timeout: cfg.raft.rpc_timeout,
        snapshot_log_entries: cfg.raft.snapshot_log_entries,
        snapshot_keep_log_entries: cfg.raft.snapshot_keep_log_entries,
        event_tap_capacity: EVENT_TAP_CAPACITY,
    }
}

/// How log events are laid out.
#[derive(Debug, Clone, Copy, PartialEq, Eq, Structural)]
pub enum LogLayout {
    Text,
    Json,
}

/// The layout a configuration names.
pub fn log_layout(format: &str) -> (r: Result<LogLayout, String>)
    ensures
        if format@ == "text"@ {
            r == Ok::<LogLayout, String>(LogLayout::Text)
        } else if format@ == "json"@ {
            r == Ok::<LogLayout, String>(LogLayout::Json)
        } else {
            r matches Err(e) && e@ == "unknown log_format "@ + text::debug_quoted(format@)
                + "; expected \"text\" or \"json\""@
        },
{
    if text::same(format, "text") {
        Ok(LogLayout::Text)
    } else if text::same(format, "json") {
        Ok(LogLayout::Json)
    } else {
        Err(
            "unknown log_format ".to_owned().concat(text::quoted(format).as_str()).concat(
                "; expected \"text\" or \"json\"",
            ),
        )
    }
}

// ---------------------------------------------------------------------------
// What a start comes to
// ---------------------------------------------------------------------------

/// TLS material is loaded first exactly where all of it is there.
pub proof fn a_start_begins_with_its_material(plan: BindPlan, r: BindStage)
    requires
        call_ensures(begin, (&plan,), r),
    ensures
        r == BindStage::LoadTls <==> plan.tls_present,
        r == BindStage::BindAgentGateway <==> !plan.tls_present,
{
}

/// The steps before the directory is read follow one another, a registration
/// only where one is configured; a failure ends the start wherever it comes.
pub proof fn the_bindings_follow_one_another(
    plan: BindPlan,
    stage: BindStage,
    outcome: Result<(), String>,
    r: BindNext,
)
    requires
        call_ensures(on_bound, (&plan, stage, outcome), r),
    ensures
        r is Fail <==> outcome is Err,
        outcome is Ok ==> {
            &&& stage == BindStage::LoadTls ==> r == BindNext::Do(BindStage::BindAgentGateway)
            &&& stage == BindStage::BindAgentGateway ==> r == BindNext::Do(BindStage::BindClient)
            &&& stage == BindStage::BindClient ==> r == BindNext::Do(BindStage::CreateDataDir)
            &&& stage == BindStage::CreateDataDir ==> r == BindNext::Do(BindStage::BindRaft)
            &&& stage == BindStage::BindRaft ==> r == BindNext::Do(BindStage::ReadRaftPort)
            &&& stage == BindStage::ReadRaftPort && plan.registers ==> r == BindNext::Do(
                BindStage::Register,
            )
            &&& stage == BindStage::ReadRaftPort && !plan.registers ==> r == BindNext::Do(
                BindStage::BindAdminSocket,
            )
            &&& stage == BindStage::Register ==> r == BindNext::Do(BindStage::BindAdminSocket)
            &&& stage == BindStage::BindAdminSocket ==> r == BindNext::Do(BindStage::Inspect)
            &&& stage == BindStage::Inspect <==> r is Done
        },
{
}

/// A dangling intent stops the daemon, whatever else holds; and nothing else
/// does.
pub proof fn a_dangling_intent_stops_the_start(
    cfg: Config,
    startup: StartupState,
    marks: FormationMarks,
    declared: Declared,
    tls_present: bool,
    shown: Option<String>,
    r: Boot,
)
    requires
        call_ensures(run_with, (&cfg, &startup, marks, declared, tls_present, &shown), r),
    ensures
        r is FailStop <==> startup is FormationFailed,
        r is Park <==> startup is Empty && declared == Declared::Nothing,
        r is Start <==> tls_present && ((startup is Empty && declared != Declared::Nothing) || (
        startup is Resume && (marks.complete_at_us is Some || startup->history_id@
            == cfg.cluster_id.bytes@))),
        r is Start && startup is Resume ==> r->Start_history_id@ == startup->history_id@
            && r->intent == StartIntent::Restart,
        r is Start && startup is Empty ==> r->Start_history_id@ == cfg.cluster_id.bytes@ && (
        declared == Declared::Bootstrap ==> r->intent == StartIntent::Bootstrap) && (declared
            == Declared::Join ==> r->intent == StartIntent::Join),
{
}

/// An embedder starts as it declares; a resumed directory keeps the history of
/// its stamp, and any other takes the configured one.
pub proof fn an_embedder_starts_as_declared(
    cfg: Config,
    startup: StartupState,
    marks: FormationMarks,
    declared: Declared,
    r: Result<(Vec<u8>, StartIntent), String>,
)
    requires
        call_ensures(bootstrap, (&cfg, &startup, marks, declared), r),
    ensures
        r is Err <==> startup is Resume && marks.complete_at_us is None && startup->history_id@
            != cfg.cluster_id.bytes@,
        r matches Ok(p) ==> (declared == Declared::Bootstrap <==> p.1 == StartIntent::Bootstrap)
            && (declared == Declared::Join <==> p.1 == StartIntent::Join) && (startup is Resume
            ==> p.0@ == startup->history_id@) && (!(startup is Resume) ==> p.0@
            == cfg.cluster_id.bytes@),
{
}

/// Contact is stale after two election timeouts.
pub proof fn contact_is_stale_after_two_elections(cfg: Config, r: Duration)
    requires
        call_ensures(contact_staleness, (&cfg,), r),
        2 * cfg.raft.election_timeout@ <= 18_446_744_073_709_551_615_999_999_999,
    ensures
        r@ == cfg.raft.election_timeout@ + cfg.raft.election_timeout@,
{
}

/// Consensus is started as configured.
pub proof fn consensus_starts_as_configured(
    cfg: Config,
    history_id: Vec<u8>,
    advertise_addr: String,
    r: NodeOptions,
)
    requires
        call_ensures(node_options, (&cfg, history_id, advertise_addr), r),
    ensures
        r.history_id@ == history_id@,
        r.advertise_addr@ == advertise_addr@,
        r.data_dir@ == cfg.data_dir@,
        r.election_timeout@ == cfg.raft.election_timeout@,
        r.heartbeat_interval@ == cfg.raft.heartbeat_interval@,
        r.rpc_timeout@ == cfg.raft.rpc_timeout@,
        r.snapshot_log_entries == cfg.raft.snapshot_log_entries,
        r.snapshot_keep_log_entries == cfg.raft.snapshot_keep_log_entries,
        r.event_tap_capacity == 4096,
{
}

/// Two layouts are known, by their names.
pub proof fn two_layouts_are_known(format: &str, r: Result<LogLayout, String>)
    requires
        call_ensures(log_layout, (format,), r),
    ensures
        format@ == "text"@ ==> r == Ok::<LogLayout, String>(LogLayout::Text),
        format@ != "text"@ && format@ == "json"@ ==> r == Ok::<LogLayout, String>(LogLayout::Json),
        format@ != "text"@ && format@ != "json"@ <==> r is Err,
{
}

} // verus!
