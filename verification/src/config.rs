//! Node configuration: what the sections hold, which of them are refused, and
//! which defaults stand in for what a file leaves out.

use vstd::prelude::*;
use vstd::string::*;

use crate::paths;
use crate::text;
use crate::text::decimal_text;
use crate::time;
use crate::time::Duration;

verus! {

// ---------------------------------------------------------------------------
// [client_tls]
// ---------------------------------------------------------------------------

/// The `[client_tls]` section as written: the public listener's posture.
#[derive(Debug, Clone)]
pub struct ClientTlsConfig {
    pub cert_path: Option<String>,
    pub key_path: Option<String>,
    /// Serve plain HTTP. Development and test only.
    pub insecure: bool,
}

/// The resolved posture of the client listener.
#[derive(Debug, Clone, PartialEq, Eq)]
pub enum ClientTlsPosture {
    /// Serve HTTPS from these paths.
    Tls { cert: String, key: String },
    /// Serve plain HTTP, explicitly and conspicuously.
    Insecure,
}

/// The one message for every way of not choosing a posture.
pub open spec fn ambiguous_text(detail: Seq<char>) -> Seq<char> {
    "[client_tls] "@ + detail
        + ". The public listener's posture is explicit, never implied: "@
        + "set BOTH `cert_path` and `key_path` to an externally-signed serving certificate "@
        + "(the production posture — or terminate TLS in a load balancer in front), OR set "@
        + "`insecure = true` to serve plain HTTP, which is development/test only because it "@
        + "exposes enrollment tokens on the wire (ADR 0037 §4)"@
}

fn ambiguous(detail: &str) -> (r: String)
    ensures
        r@ == ambiguous_text(detail@),
{
    "[client_tls] ".to_owned().concat(detail).concat(
        ". The public listener's posture is explicit, never implied: ",
    ).concat(
        "set BOTH `cert_path` and `key_path` to an externally-signed serving certificate ",
    ).concat(
        "(the production posture — or terminate TLS in a load balancer in front), OR set ",
    ).concat(
        "`insecure = true` to serve plain HTTP, which is development/test only because it ",
    ).concat("exposes enrollment tokens on the wire (ADR 0037 §4)")
}

impl ClientTlsConfig {
    /// Whether the section names a serving certificate, wholly, and nothing
    /// else.
    pub open spec fn serves_tls(self) -> bool {
        self.cert_path is Some && self.key_path is Some && !self.insecure
    }

    /// Whether the section opts into plain HTTP and names nothing else.
    pub open spec fn serves_plain(self) -> bool {
        self.cert_path is None && self.key_path is None && self.insecure
    }

    /// What is wrong with a section that states neither posture.
    pub open spec fn complaint(self) -> Seq<char> {
        if self.cert_path is Some && self.key_path is Some {
            "names a serving certificate AND sets `insecure = true`"@
        } else if self.cert_path is Some {
            "has `cert_path` but no `key_path`"@
        } else if self.key_path is Some {
            "has `key_path` but no `cert_path`"@
        } else {
            "configures neither mode"@
        }
    }

    /// Resolve the section into exactly one posture, or fail naming both.
    pub fn posture(&self) -> (r: Result<ClientTlsPosture, String>)
        ensures
            r is Ok <==> self.serves_tls() || self.serves_plain(),
            r matches Ok(p) ==> p == if self.serves_tls() {
                ClientTlsPosture::Tls { cert: self.cert_path->0, key: self.key_path->0 }
            } else {
                ClientTlsPosture::Insecure
            },
            r matches Err(e) ==> e@ == ambiguous_text(self.complaint()),
    {
        match (&self.cert_path, &self.key_path, self.insecure) {
            (Some(cert), Some(key), false) => Ok(
                ClientTlsPosture::Tls { cert: cert.clone(), key: key.clone() },
            ),
            (None, None, true) => Ok(ClientTlsPosture::Insecure),
            (Some(_), Some(_), true) => Err(
                ambiguous("names a serving certificate AND sets `insecure = true`"),
            ),
            (Some(_), None, _) => Err(ambiguous("has `cert_path` but no `key_path`")),
            (None, Some(_), _) => Err(ambiguous("has `key_path` but no `cert_path`")),
            (None, None, false) => Err(ambiguous("configures neither mode")),
        }
    }

    /// The complaint about a section that is absent entirely.
    pub fn absent() -> (r: String)
        ensures
            r@ == ambiguous_text("is missing"@),
    {
        ambiguous("is missing")
    }
}

// ---------------------------------------------------------------------------
// [discovery]
// ---------------------------------------------------------------------------

/// Which backend supplies candidate raft addresses.
#[derive(Debug, Clone, Copy, PartialEq, Eq, Structural)]
pub enum BackendKind {
    /// The literal seed list.
    Static,
    /// One name resolved per consultation.
    Dns,
    /// A directory of registration files.
    File,
    /// Auto-scaling-group membership.
    Ec2Asg,
}

impl BackendKind {
    /// The spelling of the configuration file.
    pub open spec fn spelling(self) -> Seq<char> {
        match self {
            BackendKind::Static => "static"@,
            BackendKind::Dns => "dns"@,
            BackendKind::File => "file"@,
            BackendKind::Ec2Asg => "ec2-asg"@,
        }
    }

    /// The spelling of the configuration file, for operator-facing messages.
    pub fn as_str(self) -> (r: &'static str)
        ensures
            r@ == self.spelling(),
    {
        match self {
            BackendKind::Static => "static",
            BackendKind::Dns => "dns",
            BackendKind::File => "file",
            BackendKind::Ec2Asg => "ec2-asg",
        }
    }
}

impl Default for BackendKind {
    fn default() -> (r: Self)
        ensures
            r == BackendKind::Static,
    {
        BackendKind::Static
    }
}

/// `[discovery.static]`: the literal list of dialable raft addresses.
#[derive(Debug, Clone)]
pub struct StaticBackend {
    pub addrs: Vec<String>,
}

/// `[discovery.dns]`: one name, and the port of records that carry none.
#[derive(Debug, Clone)]
pub struct DnsBackend {
    pub name: String,
    pub port: u16,
}

/// `[discovery.file]`: a directory of registration files.
#[derive(Debug, Clone)]
pub struct FileBackend {
    pub dir: String,
}

/// `[discovery.ec2_asg]`: the auto-scaling-group backend.
#[derive(Debug, Clone)]
pub struct Ec2AsgBackend {
    pub port: u16,
    pub region: Option<String>,
    pub timeout: Duration,
}

/// The `[discovery]` section: which backend seeds candidates, and the expected
/// voter count.
#[derive(Debug, Clone)]
pub struct DiscoveryConfig {
    pub backend: BackendKind,
    pub cluster_size: usize,
    pub removal_grace: Duration,
    pub learner_expiry: Duration,
    pub static_backend: Option<StaticBackend>,
    pub dns: Option<DnsBackend>,
    pub file: Option<FileBackend>,
    pub ec2_asg: Option<Ec2AsgBackend>,
}

impl DiscoveryConfig {
    /// Whether the table of this backend is present.
    pub open spec fn has_table(self, kind: BackendKind) -> bool {
        match kind {
            BackendKind::Static => self.static_backend is Some,
            BackendKind::Dns => self.dns is Some,
            BackendKind::File => self.file is Some,
            BackendKind::Ec2Asg => self.ec2_asg is Some,
        }
    }

    /// Whether the table of this backend is present though another is named.
    pub open spec fn foreign(self, kind: BackendKind) -> bool {
        self.backend != kind && self.has_table(kind)
    }

    /// The names of the tables that do not belong, in their fixed order.
    pub open spec fn foreign_names(self) -> Seq<Seq<char>> {
        let none = Seq::<Seq<char>>::empty();
        let a = if self.foreign(BackendKind::Static) {
            none.push("static"@)
        } else {
            none
        };
        let b = if self.foreign(BackendKind::Dns) {
            a.push("dns"@)
        } else {
            a
        };
        let c = if self.foreign(BackendKind::File) {
            b.push("file"@)
        } else {
            b
        };
        if self.foreign(BackendKind::Ec2Asg) {
            c.push("ec2_asg"@)
        } else {
            c
        }
    }

    /// Whether exactly the table of the named backend is present.
    pub open spec fn coherent(self) -> bool {
        forall|kind: BackendKind| #[trigger] self.has_table(kind) <==> kind == self.backend
    }

    /// The complaint about a section whose tables do not match its backend.
    pub open spec fn table_complaint(self) -> Seq<char> {
        if self.foreign_names().len() > 0 {
            "[discovery] backend = \""@ + self.backend.spelling()
                + "\" but unrelated table(s) present: "@ + text::joined(
                self.foreign_names(),
                ", "@,
            ) + " — keep exactly the one matching table (ADR 0037 §2)"@
        } else {
            match self.backend {
                BackendKind::Static =>
                    "[discovery] backend = \"static\" requires a [discovery.static] table with `addrs` (an explicit empty list is valid, ADR 0037 §2)"@,
                BackendKind::Dns =>
                    "[discovery] backend = \"dns\" requires a [discovery.dns] table with `name` and `port` (ADR 0037 §2)"@,
                BackendKind::File =>
                    "[discovery] backend = \"file\" requires a [discovery.file] table with `dir` (ADR 0037 §2)"@,
                BackendKind::Ec2Asg =>
                    "[discovery] backend = \"ec2-asg\" requires a [discovery.ec2_asg] table with `port` (ADR 0037 §2)"@,
            }
        }
    }

    /// Refuse a section whose tables do not match its backend: exactly the
    /// one matching table must be present.
    pub fn validate(&self) -> (r: Result<(), String>)
        ensures
            r is Ok <==> self.coherent(),
            r matches Err(e) ==> e@ == self.table_complaint(),
    {
        let mut foreign: Vec<String> = Vec::new();
        if self.backend != BackendKind::Static && self.static_backend.is_some() {
            foreign.push("static".to_owned());
        }
        if self.backend != BackendKind::Dns && self.dns.is_some() {
            foreign.push("dns".to_owned());
        }
        if self.backend != BackendKind::File && self.file.is_some() {
            foreign.push("file".to_owned());
        }
        if self.backend != BackendKind::Ec2Asg && self.ec2_asg.is_some() {
            foreign.push("ec2_asg".to_owned());
        }
        assert(text::views(foreign@) =~= self.foreign_names());
        if foreign.len() > 0 {
            assert(!self.coherent()) by {
                if self.foreign(BackendKind::Static) {
                    assert(self.has_table(BackendKind::Static));
                } else if self.foreign(BackendKind::Dns) {
                    assert(self.has_table(BackendKind::Dns));
                } else if self.foreign(BackendKind::File) {
                    assert(self.has_table(BackendKind::File));
                } else {
                    assert(self.has_table(BackendKind::Ec2Asg));
                }
            }
            return Err(
                "[discovery] backend = \"".to_owned().concat(self.backend.as_str()).concat(
                    "\" but unrelated table(s) present: ",
                ).concat(text::join(&foreign, ", ").as_str()).concat(
                    " — keep exactly the one matching table (ADR 0037 §2)",
                ),
            );
        }
        assert(!self.foreign(BackendKind::Static) && !self.foreign(BackendKind::Dns)
            && !self.foreign(BackendKind::File) && !self.foreign(BackendKind::Ec2Asg));
        assert(self.has_table(self.backend) <==> self.coherent());
        match self.backend {
            BackendKind::Static => if self.static_backend.is_none() {
                return Err(
                    "[discovery] backend = \"static\" requires a [discovery.static] table with `addrs` (an explicit empty list is valid, ADR 0037 §2)".to_owned(),
                );
            },
            BackendKind::Dns => if self.dns.is_none() {
                return Err(
                    "[discovery] backend = \"dns\" requires a [discovery.dns] table with `name` and `port` (ADR 0037 §2)".to_owned(),
                );
            },
            BackendKind::File => if self.file.is_none() {
                return Err(
                    "[discovery] backend = \"file\" requires a [discovery.file] table with `dir` (ADR 0037 §2)".to_owned(),
                );
            },
            BackendKind::Ec2Asg => if self.ec2_asg.is_none() {
                return Err(
                    "[discovery] backend = \"ec2-asg\" requires a [discovery.ec2_asg] table with `port` (ADR 0037 §2)".to_owned(),
                );
            },
        }
        Ok(())
    }

    /// The static seed list, when this section selects the static backend.
    pub fn static_addrs(&self) -> (r: Vec<String>)
        ensures
            r@ == if self.backend == BackendKind::Static && self.static_backend is Some {
                self.static_backend->0.addrs@
            } else {
                Seq::empty()
            },
    {
        match (self.backend, &self.static_backend) {
            (BackendKind::Static, Some(s)) => text::copy_all(&s.addrs),
            _ => Vec::new(),
        }
    }
}

pub fn default_cluster_size() -> (r: usize)
    ensures
        r == 3,
{
    3
}

pub fn default_removal_grace() -> (r: Duration)
    ensures
        r@ == 120 * time::SECOND,
{
    Duration::from_secs(120)
}

pub fn default_learner_expiry() -> (r: Duration)
    ensures
        r@ == 3600 * time::SECOND,
{
    Duration::from_secs(3600)
}

pub fn default_ec2_asg_timeout() -> (r: Duration)
    ensures
        r@ == 3 * time::SECOND,
{
    Duration::from_secs(3)
}

// ---------------------------------------------------------------------------
// [listen]
// ---------------------------------------------------------------------------

/// An address to listen on.
#[derive(Debug, Clone, PartialEq, Eq)]
pub struct ListenAddr {
    pub host: String,
    pub port: u16,
}

fn any_host(port: u16) -> (r: ListenAddr)
    ensures
        r.host@ == "0.0.0.0"@,
        r.port == port,
{
    ListenAddr { host: "0.0.0.0".to_owned(), port }
}

pub fn default_client_addr() -> (r: ListenAddr)
    ensures
        r.host@ == "0.0.0.0"@,
        r.port == 7070,
{
    any_host(7070)
}

pub fn default_raft_addr() -> (r: ListenAddr)
    ensures
        r.host@ == "0.0.0.0"@,
        r.port == 7071,
{
    any_host(7071)
}

pub fn default_agent_addr() -> (r: ListenAddr)
    ensures
        r.host@ == "0.0.0.0"@,
        r.port == 7072,
{
    any_host(7072)
}

/// Listen and advertise addresses.
#[derive(Debug, Clone)]
pub struct ListenConfig {
    pub client_addr: ListenAddr,
    pub raft_addr: ListenAddr,
    pub agent_addr: ListenAddr,
    /// The host peers and agents dial; resolved when the configuration loads.
    pub advertise_host: Option<String>,
    /// The local admin socket, when it is not the one in the data directory.
    pub admin_socket: Option<String>,
}

/// The authority `host:port`, an IPv6 host in brackets.
pub open spec fn authority(host: Seq<char>, v6: bool, port: u16) -> Seq<char> {
    if v6 {
        "["@ + host + "]:"@ + text::decimal(port as nat)
    } else {
        host + ":"@ + text::decimal(port as nat)
    }
}

impl ListenConfig {
    /// The raft address this replica advertises: the resolved host with the
    /// configured raft port. `v6` says whether the host is an IPv6 address.
    pub fn advertised_raft_addr(&self, v6: bool) -> (r: String)
        requires
            self.advertise_host is Some,
        ensures
            r@ == authority(self.advertise_host->0@, v6, self.raft_addr.port),
    {
        self.advertised_raft_addr_on_port(v6, self.raft_addr.port)
    }

    /// The raft address this replica advertises on the port it really bound,
    /// so that a request for any port never publishes port zero. `v6` says
    /// whether the host is an IPv6 address.
    pub fn advertised_raft_addr_on_port(&self, v6: bool, port: u16) -> (r: String)
        requires
            self.advertise_host is Some,
        ensures
            r@ == authority(self.advertise_host->0@, v6, port),
    {
        let host = match &self.advertise_host {
            Some(host) => host.as_str(),
            None => "",
        };
        if v6 {
            "[".to_owned().concat(host).concat("]:").concat(decimal_text(port as u64).as_str())
        } else {
            host.to_owned().concat(":").concat(decimal_text(port as u64).as_str())
        }
    }
}

/// Whether a name is shaped like a fully qualified one: it holds a dot.
pub open spec fn qualified(name: Seq<char>) -> bool {
    name.contains('.')
}

/// What peers dial: the configured host, else the system name when it is
/// qualified and resolves, else the address of the default route.
pub open spec fn advertised(
    explicit: Option<Seq<char>>,
    hostname: Option<Seq<char>>,
    resolves: bool,
    default_route: Option<Seq<char>>,
) -> Option<Seq<char>> {
    if explicit is Some {
        explicit
    } else if hostname is Some && qualified(hostname->0) && resolves {
        hostname
    } else {
        default_route
    }
}

/// The complaint when nothing peers could dial was found.
pub open spec fn unresolved_text() -> Seq<char> {
    "advertise_host is unset and could not be resolved: the system hostname is not a "@
        + "resolvable FQDN and no default route was found. Set `listen.advertise_host` "@
        + "explicitly to the address peers and agents should dial (ADR 0037 §2)."@
}

fn unresolved() -> (r: String)
    ensures
        r@ == unresolved_text(),
{
    "advertise_host is unset and could not be resolved: the system hostname is not a ".to_owned().concat(
        "resolvable FQDN and no default route was found. Set `listen.advertise_host` ",
    ).concat("explicitly to the address peers and agents should dial (ADR 0037 §2).")
}

/// Whether a name is shaped like a fully qualified one.
pub fn is_qualified(name: &str) -> (r: bool)
    ensures
        r == qualified(name@),
{
    let cs = text::chars_of(name);
    let mut i: usize = 0;
    while i < cs.len()
        invariant
            cs@ == name@,
            i <= cs@.len(),
            forall|j: int| 0 <= j < i ==> cs@[j] != '.',
        decreases cs@.len() - i,
    {
        if cs[i] == '.' {
            assert(name@[i as int] == '.');
            return true;
        }
        i = i + 1;
    }
    false
}

/// The view of an optional text.
pub open spec fn view_of(s: Option<String>) -> Option<Seq<char>> {
    match s {
        Some(s) => Some(s@),
        None => None,
    }
}

/// Resolve the host peers dial from what was found: the configured value, the
/// system's name and whether it resolves, and the default route's address.
pub fn resolve_advertise_host(
    explicit: Option<&str>,
    hostname: Option<String>,
    resolves: bool,
    default_route: Option<String>,
) -> (r: Result<String, String>)
    ensures
        match advertised(
            match explicit {
                Some(s) => Some(s@),
                None => None,
            },
            view_of(hostname),
            resolves,
            view_of(default_route),
        ) {
            Some(host) => r matches Ok(h) && h@ == host,
            None => r matches Err(e) && e@ == unresolved_text(),
        },
{
    if let Some(host) = explicit {
        return Ok(host.to_owned());
    }
    if let Some(name) = hostname {
        if is_qualified(name.as_str()) && resolves {
            return Ok(name);
        }
    }
    match default_route {
        Some(addr) => Ok(addr),
        None => Err(unresolved()),
    }
}

/// Whether `r` is what the chain comes to for these answers of its seams.
pub open spec fn resolved_as(
    r: Result<String, String>,
    hostname: Option<String>,
    resolves: bool,
    default_route: Option<String>,
) -> bool {
    match advertised(None, view_of(hostname), resolves, view_of(default_route)) {
        Some(host) => r matches Ok(h) && h@ == host,
        None => r matches Err(e) && e@ == unresolved_text(),
    }
}

/// Whether the system's name settled nothing: there is none, it is not
/// qualified, or its lookup said that it does not resolve.
pub open spec fn unsettled<R: FnOnce(&str) -> bool>(name: Option<String>, resolves: R) -> bool {
    (name is Some && qualified(name->0@)) ==> exists|asked: &str|
        asked@ == name->0@ && #[trigger] resolves.ensures((asked,), false)
}

/// [`resolve_advertise_host`] asking its seams only as far as it needs them: a
/// configured host asks none, a name that is not qualified is never looked
/// up, and the route is asked last. So a seam need only be callable where it
/// is called: the lookup for a qualified name that the system gave, the route
/// where that name settled nothing.
pub fn resolve_advertise_host_with<H, R, D>(
    explicit: Option<&str>,
    hostname: H,
    resolves: R,
    default_route: D,
) -> (r: Result<String, String>) where
    H: FnOnce() -> Option<String>,
    R: FnOnce(&str) -> bool,
    D: FnOnce() -> Option<String>,

    requires
        explicit is None ==> hostname.requires(()),
        explicit is None ==> forall|name: Option<String>, asked: &str|
            #![trigger hostname.ensures((), name), resolves.requires((asked,))]
            hostname.ensures((), name) && name is Some && qualified(name->0@) && asked@ == name->0@
                ==> resolves.requires((asked,)),
        explicit is None ==> forall|name: Option<String>| #[trigger]
            hostname.ensures((), name) && unsettled(name, resolves) ==> default_route.requires(()),
    ensures
        explicit matches Some(host) ==> r matches Ok(h) && h@ == host@,
        explicit is None ==> exists|name: Option<String>|
            {
                &&& #[trigger] hostname.ensures((), name)
                &&& {
                    ||| {
                        &&& name is Some && qualified(name->0@)
                        &&& exists|asked: &str|
                            asked@ == name->0@ && #[trigger] resolves.ensures((asked,), true)
                        &&& r matches Ok(h) && h@ == name->0@
                    }
                    ||| {
                        &&& unsettled(name, resolves)
                        &&& exists|route: Option<String>| #[trigger]
                            default_route.ensures((), route) && resolved_as(r, None, false, route)
                    }
                }
            },
{
    if let Some(host) = explicit {
        return Ok(host.to_owned());
    }
    let found = hostname();
    if let Some(n) = found {
        if is_qualified(n.as_str()) {
            let asked = n.as_str();
            let known = resolves(asked);
            if known {
                return Ok(n);
            }
        }
    }
    let route = default_route();
    assert(default_route.ensures((), route));
    match route {
        Some(addr) => Ok(addr),
        None => Err(unresolved()),
    }
}

// ---------------------------------------------------------------------------
// [raft], [pacing], [token_kdf], [tls], [sso], [observability]
// ---------------------------------------------------------------------------

/// Raft liveness timing.
#[derive(Debug, Clone)]
pub struct RaftConfig {
    pub election_timeout: Duration,
    pub heartbeat_interval: Duration,
    pub rpc_timeout: Duration,
    pub snapshot_log_entries: u64,
    pub snapshot_keep_log_entries: u64,
    pub health_stability_interval: Duration,
}

impl Default for RaftConfig {
    fn default() -> (r: Self)
        ensures
            r.election_timeout@ == 1500 * time::MILLISECOND,
            r.heartbeat_interval@ == 300 * time::MILLISECOND,
            r.rpc_timeout@ == 1 * time::SECOND,
            r.snapshot_log_entries == 50_000,
            r.snapshot_keep_log_entries == 1000,
            r.health_stability_interval@ == 10 * time::SECOND,
    {
        RaftConfig {
            election_timeout: default_election_timeout(),
            heartbeat_interval: default_heartbeat_interval(),
            rpc_timeout: default_rpc_timeout(),
            snapshot_log_entries: default_snapshot_log_entries(),
            snapshot_keep_log_entries: default_snapshot_keep_log_entries(),
            health_stability_interval: default_health_stability_interval(),
        }
    }
}

pub fn default_election_timeout() -> (r: Duration)
    ensures
        r@ == 1500 * time::MILLISECOND,
{
    Duration::from_millis(1500)
}

pub fn default_heartbeat_interval() -> (r: Duration)
    ensures
        r@ == 300 * time::MILLISECOND,
{
    Duration::from_millis(300)
}

pub fn default_rpc_timeout() -> (r: Duration)
    ensures
        r@ == 1 * time::SECOND,
{
    Duration::from_secs(1)
}

pub fn default_snapshot_log_entries() -> (r: u64)
    ensures
        r == 50_000,
{
    50_000
}

pub fn default_snapshot_keep_log_entries() -> (r: u64)
    ensures
        r == 1000,
{
    1000
}

pub fn default_health_stability_interval() -> (r: Duration)
    ensures
        r@ == 10 * time::SECOND,
{
    Duration::from_secs(10)
}

/// Convergence-loop pacing: every value is a sleep between rounds.
#[derive(Debug, Clone, Copy, PartialEq, Eq, Structural)]
pub struct PacingConfig {
    /// The cadence while actively converging.
    pub probe_interval: Duration,
    /// The cadence once settled.
    pub settled_interval: Duration,
    /// The wait after a refusal that waiting does not fix.
    pub refusal_backoff: Duration,
    /// The shortest wait of a parked daemon.
    pub park_interval_min: Duration,
    /// The longest wait of a parked daemon.
    pub park_interval_max: Duration,
    /// The promotion poll's cadence.
    pub promote_poll_interval: Duration,
}

impl PacingConfig {
    /// The name and length of each interval, in the order they are judged.
    pub open spec fn intervals(self) -> Seq<(Seq<char>, nat)> {
        seq![
            ("probe_interval"@, self.probe_interval@),
            ("settled_interval"@, self.settled_interval@),
            ("refusal_backoff"@, self.refusal_backoff@),
            ("park_interval_min"@, self.park_interval_min@),
            ("park_interval_max"@, self.park_interval_max@),
            ("promote_poll_interval"@, self.promote_poll_interval@),
        ]
    }

    /// Whether no interval is zero.
    pub open spec fn no_spin(self) -> bool {
        forall|i: int| 0 <= i < 6 ==> (#[trigger] self.intervals()[i]).1 > 0
    }

    /// Whether the park ramp's floor does not exceed its ceiling.
    pub open spec fn ramp_upright(self) -> bool {
        self.park_interval_min@ <= self.park_interval_max@
    }

    /// The complaint about a zero interval.
    pub open spec fn spin_complaint(name: Seq<char>) -> Seq<char> {
        "[pacing] "@ + name
            + " must be non-zero — a zero interval turns its retry loop into a busy spin"@
    }

    /// The complaint about an inverted park ramp.
    pub open spec fn ramp_complaint(self) -> Seq<char> {
        "[pacing] park_interval_min ("@ + time::written(self.park_interval_min@)
            + ") exceeds park_interval_max ("@ + time::written(self.park_interval_max@)
            + ") — the park backoff doubles from the min and clamps to the max"@
    }

    fn refuse_spin(name: &str) -> (r: String)
        ensures
            r@ == Self::spin_complaint(name@),
    {
        "[pacing] ".to_owned().concat(name).concat(
            " must be non-zero — a zero interval turns its retry loop into a busy spin",
        )
    }

    /// Refuse a zero interval, which would turn its loop into a busy spin, and
    /// a park ramp whose floor exceeds its ceiling. The first zero interval is
    /// the one named.
    pub fn validate(&self) -> (r: Result<(), String>)
        ensures
            r is Ok <==> self.no_spin() && self.ramp_upright(),
            r matches Err(e) ==> {
                ||| exists|i: int|
                    {
                        &&& 0 <= i < 6
                        &&& (#[trigger] self.intervals()[i]).1 == 0
                        &&& forall|j: int| 0 <= j < i ==> (#[trigger] self.intervals()[j]).1 > 0
                        &&& e@ == Self::spin_complaint(self.intervals()[i].0)
                    }
                ||| self.no_spin() && e@ == self.ramp_complaint()
            },
    {
        let ghost all = self.intervals();
        assert(all[0].1 == self.probe_interval@ && all[1].1 == self.settled_interval@ && all[2].1
            == self.refusal_backoff@ && all[3].1 == self.park_interval_min@ && all[4].1
            == self.park_interval_max@ && all[5].1 == self.promote_poll_interval@);
        if self.probe_interval.is_zero() {
            return Err(Self::refuse_spin("probe_interval"));
        }
        if self.settled_interval.is_zero() {
            return Err(Self::refuse_spin("settled_interval"));
        }
        if self.refusal_backoff.is_zero() {
            return Err(Self::refuse_spin("refusal_backoff"));
        }
        if self.park_interval_min.is_zero() {
            return Err(Self::refuse_spin("park_interval_min"));
        }
        if self.park_interval_max.is_zero() {
            return Err(Self::refuse_spin("park_interval_max"));
        }
        if self.promote_poll_interval.is_zero() {
            return Err(Self::refuse_spin("promote_poll_interval"));
        }
        if !self.park_interval_min.at_most(&self.park_interval_max) {
            return Err(
                "[pacing] park_interval_min (".to_owned().concat(
                    time::write_duration(&self.park_interval_min).as_str(),
                ).concat(") exceeds park_interval_max (").concat(
                    time::write_duration(&self.park_interval_max).as_str(),
                ).concat(") — the park backoff doubles from the min and clamps to the max"),
            );
        }
        Ok(())
    }
}

impl Default for PacingConfig {
    fn default() -> (r: Self)
        ensures
            r.probe_interval@ == 300 * time::MILLISECOND,
            r.settled_interval@ == 3 * time::SECOND,
            r.refusal_backoff@ == 30 * time::SECOND,
            r.park_interval_min@ == 500 * time::MILLISECOND,
            r.park_interval_max@ == 15 * time::SECOND,
            r.promote_poll_interval@ == 500 * time::MILLISECOND,
    {
        PacingConfig {
            probe_interval: default_probe_interval(),
            settled_interval: default_settled_interval(),
            refusal_backoff: default_refusal_backoff(),
            park_interval_min: default_park_interval_min(),
            park_interval_max: default_park_interval_max(),
            promote_poll_interval: default_promote_poll_interval(),
        }
    }
}

pub fn default_probe_interval() -> (r: Duration)
    ensures
        r@ == 300 * time::MILLISECOND,
{
    Duration::from_millis(300)
}

pub fn default_settled_interval() -> (r: Duration)
    ensures
        r@ == 3 * time::SECOND,
{
    Duration::from_secs(3)
}

pub fn default_refusal_backoff() -> (r: Duration)
    ensures
        r@ == 30 * time::SECOND,
{
    Duration::from_secs(30)
}

pub fn default_park_interval_min() -> (r: Duration)
    ensures
        r@ == 500 * time::MILLISECOND,
{
    Duration::from_millis(500)
}

pub fn default_park_interval_max() -> (r: Duration)
    ensures
        r@ == 15 * time::SECOND,
{
    Duration::from_secs(15)
}

pub fn default_promote_poll_interval() -> (r: Duration)
    ensures
        r@ == 500 * time::MILLISECOND,
{
    Duration::from_millis(500)
}

/// `[token_kdf]`: the cost of hashing enrollment-token secrets.
#[derive(Debug, Clone, Copy, PartialEq, Eq, Structural)]
pub struct TokenKdfConfig {
    /// Memory cost in KiB.
    pub m_cost_kib: u32,
    /// Iteration count.
    pub t_cost: u32,
    /// Parallelism lanes.
    pub p_cost: u32,
}

impl TokenKdfConfig {
    /// Whether the hash accepts this cost: at least one iteration, at least
    /// one lane, and eight KiB of memory a lane.
    pub open spec fn accepted(self) -> bool {
        &&& self.t_cost > 0
        &&& self.p_cost > 0
        &&& self.m_cost_kib >= 8 * self.p_cost
    }

    /// Refuse a cost the hash itself would refuse. Judged when the
    /// configuration loads, because the first use can be arbitrarily far away.
    pub fn validate(&self) -> (r: Result<(), String>)
        ensures
            r is Ok <==> self.accepted(),
            r matches Err(e) ==> e@ == if self.t_cost == 0 {
                "[token_kdf] t_cost must be at least 1"@
            } else if self.p_cost == 0 {
                "[token_kdf] p_cost must be at least 1"@
            } else {
                "[token_kdf] m_cost_kib must be at least 8 KiB per lane"@
            },
    {
        if self.t_cost == 0 {
            return Err("[token_kdf] t_cost must be at least 1".to_owned());
        }
        if self.p_cost == 0 {
            return Err("[token_kdf] p_cost must be at least 1".to_owned());
        }
        if (self.m_cost_kib as u64) < 8 * (self.p_cost as u64) {
            return Err("[token_kdf] m_cost_kib must be at least 8 KiB per lane".to_owned());
        }
        Ok(())
    }
}

impl Default for TokenKdfConfig {
    fn default() -> (r: Self)
        ensures
            r == (TokenKdfConfig { m_cost_kib: 19456, t_cost: 2, p_cost: 1 }),
    {
        TokenKdfConfig {
            m_cost_kib: default_kdf_m_cost_kib(),
            t_cost: default_kdf_t_cost(),
            p_cost: default_kdf_p_cost(),
        }
    }
}

pub fn default_kdf_m_cost_kib() -> (r: u32)
    ensures
        r == 19456,
{
    19456
}

pub fn default_kdf_t_cost() -> (r: u32)
    ensures
        r == 2,
{
    2
}

pub fn default_kdf_p_cost() -> (r: u32)
    ensures
        r == 1,
{
    1
}

/// mTLS material for intra-cluster traffic, by path.
#[derive(Debug, Clone)]
pub struct TlsConfig {
    pub cert_path: String,
    pub key_path: String,
    pub ca_path: String,
}

/// SSO connection parameters.
#[derive(Debug, Clone)]
pub struct SsoConfig {
    pub issuer: String,
    pub client_id: String,
    pub client_secret_path: String,
}

/// How this installation enrolls for its own leaf.
#[derive(Clone)]
pub struct EnrollmentConfig {
    pub endpoint: String,
    pub insecure: bool,
    pub token: Option<String>,
    pub token_path: Option<String>,
}

impl EnrollmentConfig {
    /// The section as log lines show it: all of it but the token.
    pub open spec fn described(self) -> Seq<char> {
        "EnrollmentConfig { endpoint: "@ + text::debug_quoted(self.endpoint@) + ", insecure: "@ + (
        if self.insecure {
            "true"@
        } else {
            "false"@
        }) + ", token: "@ + (if self.token is Some {
            "Some(<redacted>)"@
        } else {
            "None"@
        }) + ", token_path: "@ + text::optional_quoted(view_of(self.token_path)) + " }"@
    }

    /// The section as log lines show it. An inline token is redacted; whether
    /// there is one is not.
    pub fn describe(&self) -> (r: String)
        ensures
            r@ == self.described(),
    {
        let insecure = if self.insecure {
            "true"
        } else {
            "false"
        };
        let token = if self.token.is_some() {
            "Some(<redacted>)"
        } else {
            "None"
        };
        "EnrollmentConfig { endpoint: ".to_owned().concat(
            text::quoted(self.endpoint.as_str()).as_str(),
        ).concat(", insecure: ").concat(insecure).concat(", token: ").concat(token).concat(
            ", token_path: ",
        ).concat(text::quoted_option(&self.token_path).as_str()).concat(" }")
    }

    /// Whether a token may be sent to the endpoint: over a connection that
    /// proves who answers, or over any other once the section opts in.
    pub open spec fn endpoint_trusted(self) -> bool {
        text::begins_with(self.endpoint@, "https://"@) || self.insecure
    }

    /// Whether exactly one of the two ways to state a token is used.
    pub open spec fn one_token(self) -> bool {
        self.token is Some != self.token_path is Some
    }

    /// The complaint about a section that is refused.
    pub open spec fn enrollment_complaint(self) -> Seq<char> {
        if !self.endpoint_trusted() {
            "[enrollment] endpoint "@ + text::debug_quoted(self.endpoint@)
                + " is not https: a token sent there could be read by anyone on the path. Use an https endpoint, or set `insecure = true` (development and tests only)"@
        } else if self.token is Some {
            "[enrollment] sets both `token` and `token_path`: exactly one of them names the token"@
        } else {
            "[enrollment] sets no token: set `token_path` to the file that holds it (or, in development, an inline `token`)"@
        }
    }

    /// Reject an endpoint that a token must never be sent to, and a section
    /// that states two tokens or none.
    pub fn validate(&self) -> (r: Result<(), String>)
        ensures
            r is Ok <==> self.endpoint_trusted() && self.one_token(),
            r matches Err(e) ==> e@ == self.enrollment_complaint(),
    {
        if !text::starts_with(self.endpoint.as_str(), "https://") && !self.insecure {
            return Err(
                "[enrollment] endpoint ".to_owned().concat(
                    text::quoted(self.endpoint.as_str()).as_str(),
                ).concat(
                    " is not https: a token sent there could be read by anyone on the path. Use an https endpoint, or set `insecure = true` (development and tests only)",
                ),
            );
        }
        match (&self.token, &self.token_path) {
            (Some(_), None) | (None, Some(_)) => Ok(()),
            (Some(_), Some(_)) => Err(
                "[enrollment] sets both `token` and `token_path`: exactly one of them names the token".to_owned(),
            ),
            (None, None) => Err(
                "[enrollment] sets no token: set `token_path` to the file that holds it (or, in development, an inline `token`)".to_owned(),
            ),
        }
    }
}

/// An inline token never reaches a log line: sections that differ in nothing
/// but their token are shown alike.
pub proof fn inline_tokens_stay_hidden(a: EnrollmentConfig, b: EnrollmentConfig)
    requires
        a.endpoint@ == b.endpoint@,
        a.insecure == b.insecure,
        a.token is Some == b.token is Some,
        view_of(a.token_path) == view_of(b.token_path),
    ensures
        a.described() == b.described(),
{
}

/// Logging, tracing, and metrics settings.
#[derive(Debug, Clone)]
pub struct ObservabilityConfig {
    pub log_level: String,
    /// `"text"` or `"json"`.
    pub log_format: String,
    pub otlp_endpoint: Option<String>,
}

impl Default for ObservabilityConfig {
    fn default() -> (r: Self)
        ensures
            r.log_level@ == "info"@,
            r.log_format@ == "text"@,
            r.otlp_endpoint is None,
    {
        ObservabilityConfig {
            log_level: default_log_level(),
            log_format: default_log_format(),
            otlp_endpoint: None,
        }
    }
}

pub fn default_log_level() -> (r: String)
    ensures
        r@ == "info"@,
{
    "info".to_owned()
}

pub fn default_log_format() -> (r: String)
    ensures
        r@ == "text"@,
{
    "text".to_owned()
}

// ---------------------------------------------------------------------------
// The whole file
// ---------------------------------------------------------------------------

/// The operator-chosen name of a cluster: its written form and its bytes.
#[derive(Debug, Clone)]
pub struct ClusterId {
    pub text: String,
    pub bytes: Vec<u8>,
}

/// The coordinator's node configuration.
#[derive(Clone)]
pub struct Config {
    pub cluster_id: ClusterId,
    pub data_dir: String,
    pub discovery: DiscoveryConfig,
    pub listen: ListenConfig,
    pub raft: RaftConfig,
    pub pacing: PacingConfig,
    pub token_kdf: TokenKdfConfig,
    pub tls: TlsConfig,
    pub client_tls: Option<ClientTlsConfig>,
    pub enrollment: Option<EnrollmentConfig>,
    pub sso: Option<SsoConfig>,
    pub observability: ObservabilityConfig,
}

impl Config {
    /// Whether the client listener's posture is stated.
    pub open spec fn states_posture(self) -> bool {
        self.client_tls matches Some(s) && (s.serves_tls() || s.serves_plain())
    }

    /// The complaint about a posture that is not stated.
    pub open spec fn posture_complaint(self) -> Seq<char> {
        match self.client_tls {
            Some(s) => ambiguous_text(s.complaint()),
            None => ambiguous_text("is missing"@),
        }
    }

    /// The client listener's posture, or the error naming both options, for an
    /// absent section as much as for a half-configured one.
    pub fn client_tls_posture(&self) -> (r: Result<ClientTlsPosture, String>)
        ensures
            r is Ok <==> self.states_posture(),
            r matches Ok(p) ==> p == if self.client_tls->0.serves_tls() {
                ClientTlsPosture::Tls {
                    cert: self.client_tls->0.cert_path->0,
                    key: self.client_tls->0.key_path->0,
                }
            } else {
                ClientTlsPosture::Insecure
            },
            r matches Err(e) ==> e@ == self.posture_complaint(),
    {
        match &self.client_tls {
            Some(section) => section.posture(),
            None => Err(ClientTlsConfig::absent()),
        }
    }

    /// The local admin socket: the configured one, or `admin.sock` in the data
    /// directory.
    pub fn admin_socket_path(&self) -> (r: String)
        ensures
            r@ == match self.listen.admin_socket {
                Some(path) => path@,
                None => paths::joined(self.data_dir@, "admin.sock"@),
            },
    {
        proof {
            reveal_strlit("admin.sock");
        }
        match &self.listen.admin_socket {
            Some(path) => path.clone(),
            None => paths::join(self.data_dir.as_str(), "admin.sock"),
        }
    }
}

/// A configuration whose sections were judged and whose advertised host is
/// known.
#[derive(Clone)]
pub struct ResolvedConfig {
    pub config: Config,
}

/// The complaint of one section, named by the file it was read from.
pub open spec fn in_file(path: Seq<char>, complaint: Seq<char>) -> Seq<char> {
    "reading coordinator config "@ + path + ": "@ + complaint
}

fn of_file(path: &str, complaint: &str) -> (r: String)
    ensures
        r@ == in_file(path@, complaint@),
{
    "reading coordinator config ".to_owned().concat(path).concat(": ").concat(complaint)
}

/// Whether every section of a configuration is acceptable.
pub open spec fn acceptable(config: Config) -> bool {
    &&& config.discovery.coherent()
    &&& config.states_posture()
    &&& config.enrollment matches Some(e) ==> e.endpoint_trusted() && e.one_token()
    &&& config.pacing.no_spin() && config.pacing.ramp_upright()
    &&& config.token_kdf.accepted()
}

/// Judge a configuration as it was read and settle its advertised host.
///
/// The sections are judged in a fixed order, and the first that is refused is
/// the one reported, named by the file: discovery, the client posture,
/// enrollment, pacing, the token cost. Then the advertised host is resolved
/// once, so that no reader has to.
pub fn load(
    path: &str,
    config: Config,
    hostname: Option<String>,
    resolves: bool,
    default_route: Option<String>,
) -> (r: Result<ResolvedConfig, String>)
    ensures
        ({
            let host = advertised(
                view_of(config.listen.advertise_host),
                view_of(hostname),
                resolves,
                view_of(default_route),
            );
            &&& r is Ok <==> acceptable(config) && host is Some
            &&& r matches Ok(c) ==> {
                &&& c.config.listen.advertise_host matches Some(h) && h@ == host->0
                &&& c.config == (Config {
                    listen: ListenConfig {
                        advertise_host: c.config.listen.advertise_host,
                        ..config.listen
                    },
                    ..config
                })
            }
            &&& r matches Err(e) ==> {
                if !config.discovery.coherent() {
                    e@ == in_file(path@, config.discovery.table_complaint())
                } else if !config.states_posture() {
                    e@ == in_file(path@, config.posture_complaint())
                } else if config.enrollment matches Some(s) && !(s.endpoint_trusted()
                    && s.one_token()) {
                    e@ == in_file(path@, config.enrollment->0.enrollment_complaint())
                } else if !config.pacing.no_spin() {
                    exists|i: int|
                        {
                            &&& 0 <= i < 6
                            &&& (#[trigger] config.pacing.intervals()[i]).1 == 0
                            &&& forall|j: int|
                                0 <= j < i ==> (#[trigger] config.pacing.intervals()[j]).1 > 0
                            &&& e@ == in_file(
                                path@,
                                PacingConfig::spin_complaint(config.pacing.intervals()[i].0),
                            )
                        }
                } else if !config.pacing.ramp_upright() {
                    e@ == in_file(path@, config.pacing.ramp_complaint())
                } else if !config.token_kdf.accepted() {
                    e@ == in_file(
                        path@,
                        if config.token_kdf.t_cost == 0 {
                            "[token_kdf] t_cost must be at least 1"@
                        } else if config.token_kdf.p_cost == 0 {
                            "[token_kdf] p_cost must be at least 1"@
                        } else {
                            "[token_kdf] m_cost_kib must be at least 8 KiB per lane"@
                        },
                    )
                } else {
                    e@ == unresolved_text()
                }
            }
        }),
{
    if let Err(e) = config.discovery.validate() {
        return Err(of_file(path, e.as_str()));
    }
    if let Err(e) = config.client_tls_posture() {
        return Err(of_file(path, e.as_str()));
    }
    if let Some(enrollment) = &config.enrollment {
        if let Err(e) = enrollment.validate() {
            return Err(of_file(path, e.as_str()));
        }
    }
    if let Err(e) = config.pacing.validate() {
        return Err(of_file(path, e.as_str()));
    }
    if let Err(e) = config.token_kdf.validate() {
        return Err(of_file(path, e.as_str()));
    }
    let explicit = match &config.listen.advertise_host {
        Some(host) => Some(host.as_str()),
        None => None,
    };
    match resolve_advertise_host(explicit, hostname, resolves, default_route) {
        Ok(host) => {
            let mut settled = config;
            settled.listen.advertise_host = Some(host);
            Ok(ResolvedConfig { config: settled })
        },
        Err(e) => Err(e),
    }
}

// ---------------------------------------------------------------------------
// What a file is judged by
// ---------------------------------------------------------------------------

/// The public listener has a posture exactly where the section states one and
/// no other: both paths and no opt-out, or the opt-out and neither path.
pub proof fn a_posture_is_stated_or_refused(
    section: ClientTlsConfig,
    r: Result<ClientTlsPosture, String>,
)
    requires
        call_ensures(ClientTlsConfig::posture, (&section,), r),
    ensures
        r is Ok <==> (section.cert_path is Some && section.key_path is Some && !section.insecure)
            || (section.cert_path is None && section.key_path is None && section.insecure),
        r matches Ok(ClientTlsPosture::Tls { cert, key }) ==> section.cert_path == Some(cert)
            && section.key_path == Some(key) && !section.insecure,
        r matches Ok(ClientTlsPosture::Insecure) ==> section.insecure,
{
}

/// A configuration without the section has no posture.
pub proof fn no_section_is_no_posture(config: Config, r: Result<ClientTlsPosture, String>)
    requires
        call_ensures(Config::client_tls_posture, (&config,), r),
    ensures
        config.client_tls is None ==> r is Err,
        config.client_tls matches Some(s) ==> (r is Ok <==> (s.cert_path is Some && s.key_path
            is Some && !s.insecure) || (s.cert_path is None && s.key_path is None && s.insecure)),
{
}

/// A discovery section is accepted exactly where the table of its backend is
/// there and no other is.
pub proof fn exactly_one_table_is_kept(section: DiscoveryConfig, r: Result<(), String>)
    requires
        call_ensures(DiscoveryConfig::validate, (&section,), r),
    ensures
        r is Ok <==> (section.static_backend is Some <==> section.backend == BackendKind::Static)
            && (section.dns is Some <==> section.backend == BackendKind::Dns) && (section.file
            is Some <==> section.backend == BackendKind::File) && (section.ec2_asg is Some
            <==> section.backend == BackendKind::Ec2Asg),
{
    assert(section.has_table(BackendKind::Static) <==> section.static_backend is Some);
    assert(section.has_table(BackendKind::Dns) <==> section.dns is Some);
    assert(section.has_table(BackendKind::File) <==> section.file is Some);
    assert(section.has_table(BackendKind::Ec2Asg) <==> section.ec2_asg is Some);
}

/// A static list seeds only where it is the backend.
pub proof fn a_static_list_seeds_where_it_is_named(section: DiscoveryConfig, r: Vec<String>)
    requires
        call_ensures(DiscoveryConfig::static_addrs, (&section,), r),
    ensures
        section.backend == BackendKind::Static && section.static_backend is Some ==> r@
            == section.static_backend->0.addrs@,
        section.backend != BackendKind::Static || section.static_backend is None ==> r@.len() == 0,
{
}

/// Pacing is accepted exactly where no interval is zero and the ramp's floor
/// is not above its ceiling.
pub proof fn no_loop_may_spin(pacing: PacingConfig, r: Result<(), String>)
    requires
        call_ensures(PacingConfig::validate, (&pacing,), r),
    ensures
        r is Ok <==> pacing.probe_interval@ > 0 && pacing.settled_interval@ > 0
            && pacing.refusal_backoff@ > 0 && pacing.park_interval_min@ > 0
            && pacing.park_interval_max@ > 0 && pacing.promote_poll_interval@ > 0
            && pacing.park_interval_min@ <= pacing.park_interval_max@,
{
    let all = pacing.intervals();
    assert(all[0].1 == pacing.probe_interval@ && all[1].1 == pacing.settled_interval@ && all[2].1
        == pacing.refusal_backoff@ && all[3].1 == pacing.park_interval_min@ && all[4].1
        == pacing.park_interval_max@ && all[5].1 == pacing.promote_poll_interval@);
    if pacing.probe_interval@ > 0 && pacing.settled_interval@ > 0 && pacing.refusal_backoff@ > 0
        && pacing.park_interval_min@ > 0 && pacing.park_interval_max@ > 0
        && pacing.promote_poll_interval@ > 0 {
        assert forall|i: int| 0 <= i < 6 implies (#[trigger] pacing.intervals()[i]).1 > 0 by {
            assert(i == 0 || i == 1 || i == 2 || i == 3 || i == 4 || i == 5);
        }
    }
}

/// A token cost is accepted exactly where the hash accepts it.
pub proof fn a_cost_has_room_for_its_lanes(cost: TokenKdfConfig, r: Result<(), String>)
    requires
        call_ensures(TokenKdfConfig::validate, (&cost,), r),
    ensures
        r is Ok <==> cost.t_cost >= 1 && cost.p_cost >= 1 && cost.m_cost_kib >= 8 * cost.p_cost,
{
}

/// An enrollment section is accepted exactly where its token goes over https,
/// or insecurity was asked for, and there is one token and not two.
pub proof fn a_token_is_sent_where_it_is_safe(section: EnrollmentConfig, r: Result<(), String>)
    requires
        call_ensures(EnrollmentConfig::validate, (&section,), r),
    ensures
        r is Ok <==> (section.insecure || "https://"@.is_prefix_of(section.endpoint@)) && (
        section.token is Some || section.token_path is Some) && !(section.token is Some
            && section.token_path is Some),
{
    text::beginning_is_a_prefix(section.endpoint@, "https://"@);
}

/// What peers dial: the configured host wins over everything; then a
/// qualified name of the system that resolves; then the default route; and
/// without any of them nothing is made up.
pub proof fn a_configured_host_is_dialled(
    explicit: Option<&str>,
    hostname: Option<String>,
    resolves: bool,
    default_route: Option<String>,
    r: Result<String, String>,
)
    requires
        call_ensures(resolve_advertise_host, (explicit, hostname, resolves, default_route), r),
    ensures
        explicit is Some ==> (r matches Ok(h) && h@ == explicit->0@),
        explicit is None && hostname is Some && hostname->0@.contains('.') && resolves ==> (
        r matches Ok(h) && h@ == hostname->0@),
        explicit is None && !(hostname is Some && hostname->0@.contains('.') && resolves)
            && default_route is Some ==> (r matches Ok(h) && h@ == default_route->0@),
        r is Err <==> explicit is None && !(hostname is Some && hostname->0@.contains('.')
            && resolves) && default_route is None,
{
}

/// A name is qualified exactly when it holds a dot.
pub proof fn a_qualified_name_holds_a_dot(name: &str, r: bool)
    requires
        call_ensures(is_qualified, (name,), r),
    ensures
        r <==> exists|i: int| 0 <= i < name@.len() && #[trigger] name@[i] == '.',
{
    if name@.contains('.') {
        let i = choose|i: int| 0 <= i < name@.len() && name@[i] == '.';
        assert(name@[i] == '.');
    }
    if exists|i: int| 0 <= i < name@.len() && #[trigger] name@[i] == '.' {
        let i = choose|i: int| 0 <= i < name@.len() && #[trigger] name@[i] == '.';
        assert(name@.contains(name@[i]));
    }
}

/// An advertised address is the host and the port, the host in brackets
/// exactly where it is an IPv6 one.
pub proof fn an_address_is_host_and_port(
    listen: ListenConfig,
    v6: bool,
    port: u16,
    configured: String,
    bound: String,
)
    requires
        listen.advertise_host is Some,
        call_ensures(ListenConfig::advertised_raft_addr, (&listen, v6), configured),
        call_ensures(ListenConfig::advertised_raft_addr_on_port, (&listen, v6, port), bound),
    ensures
        !v6 ==> bound@ == listen.advertise_host->0@ + ":"@ + text::decimal(port as nat),
        v6 ==> bound@ == "["@ + listen.advertise_host->0@ + "]:"@ + text::decimal(port as nat),
        !v6 ==> configured@ == listen.advertise_host->0@ + ":"@ + text::decimal(
            listen.raft_addr.port as nat,
        ),
        v6 ==> configured@ == "["@ + listen.advertise_host->0@ + "]:"@ + text::decimal(
            listen.raft_addr.port as nat,
        ),
{
}

/// The admin socket is the configured one, and else lies in the data
/// directory.
pub proof fn the_admin_socket_is_local(config: Config, r: String)
    requires
        call_ensures(Config::admin_socket_path, (&config,), r),
    ensures
        config.listen.admin_socket matches Some(path) ==> r@ == path@,
        config.listen.admin_socket is None ==> config.data_dir@.is_prefix_of(r@),
{
}

/// A file is loaded exactly where every section is accepted and a host was
/// found; then nothing of it is changed but the host.
pub proof fn a_file_is_loaded_whole(
    path: &str,
    config: Config,
    hostname: Option<String>,
    resolves: bool,
    default_route: Option<String>,
    tables: Result<(), String>,
    posture: Result<ClientTlsPosture, String>,
    pacing: Result<(), String>,
    cost: Result<(), String>,
    enrolling: Result<(), String>,
    r: Result<ResolvedConfig, String>,
)
    requires
        call_ensures(load, (path, config, hostname, resolves, default_route), r),
        call_ensures(DiscoveryConfig::validate, (&config.discovery,), tables),
        call_ensures(Config::client_tls_posture, (&config,), posture),
        call_ensures(PacingConfig::validate, (&config.pacing,), pacing),
        call_ensures(TokenKdfConfig::validate, (&config.token_kdf,), cost),
        config.enrollment matches Some(e) ==> call_ensures(
            EnrollmentConfig::validate,
            (&e,),
            enrolling,
        ),
    ensures
        r is Ok <==> tables is Ok && posture is Ok && pacing is Ok && cost is Ok && (
        config.enrollment is Some ==> enrolling is Ok) && (config.listen.advertise_host is Some || (
        hostname is Some && hostname->0@.contains('.') && resolves) || default_route is Some),
        r matches Ok(c) ==> c.config.data_dir == config.data_dir && c.config.raft == config.raft
            && c.config.pacing == config.pacing && c.config.discovery == config.discovery
            && c.config.cluster_id == config.cluster_id && c.config.listen.advertise_host is Some && (
        config.listen.advertise_host is Some ==> c.config.listen.advertise_host->0@
            == config.listen.advertise_host->0@),
{
}

/// What a file leaves out, in numbers.
pub proof fn defaults_are_what_they_are(
    size: usize,
    grace: Duration,
    expiry: Duration,
    asg: Duration,
    client: ListenAddr,
    raft: ListenAddr,
    agent: ListenAddr,
)
    requires
        call_ensures(default_cluster_size, (), size),
        call_ensures(default_removal_grace, (), grace),
        call_ensures(default_learner_expiry, (), expiry),
        call_ensures(default_ec2_asg_timeout, (), asg),
        call_ensures(default_client_addr, (), client),
        call_ensures(default_raft_addr, (), raft),
        call_ensures(default_agent_addr, (), agent),
    ensures
        size == 3,
        grace@ == 120_000_000_000,
        expiry@ == 3_600_000_000_000,
        asg@ == 3_000_000_000,
        client.port == 7070 && raft.port == 7071 && agent.port == 7072,
        client.host@ == "0.0.0.0"@ && raft.host@ == "0.0.0.0"@ && agent.host@ == "0.0.0.0"@,
{
}

/// How raft and convergence are paced where a file does not say, in numbers.
pub proof fn default_paces_are_what_they_are(
    election: Duration,
    heartbeat: Duration,
    rpc: Duration,
    stability: Duration,
    snapshot: u64,
    keep: u64,
    probe: Duration,
    settled: Duration,
    refusal: Duration,
    least: Duration,
    most: Duration,
    poll: Duration,
)
    requires
        call_ensures(default_election_timeout, (), election),
        call_ensures(default_heartbeat_interval, (), heartbeat),
        call_ensures(default_rpc_timeout, (), rpc),
        call_ensures(default_health_stability_interval, (), stability),
        call_ensures(default_snapshot_log_entries, (), snapshot),
        call_ensures(default_snapshot_keep_log_entries, (), keep),
        call_ensures(default_probe_interval, (), probe),
        call_ensures(default_settled_interval, (), settled),
        call_ensures(default_refusal_backoff, (), refusal),
        call_ensures(default_park_interval_min, (), least),
        call_ensures(default_park_interval_max, (), most),
        call_ensures(default_promote_poll_interval, (), poll),
    ensures
        election@ == 1_500_000_000 && heartbeat@ == 300_000_000 && rpc@ == 1_000_000_000,
        stability@ == 10_000_000_000 && snapshot == 50_000 && keep == 1_000,
        probe@ == 300_000_000 && settled@ == 3_000_000_000 && refusal@ == 30_000_000_000,
        least@ == 500_000_000 && most@ == 15_000_000_000 && poll@ == 500_000_000,
{
}

/// What hashing a token costs where a file does not say, and how it logs.
pub proof fn default_costs_are_what_they_are(
    memory: u32,
    rounds: u32,
    lanes: u32,
    level: String,
    format: String,
)
    requires
        call_ensures(default_kdf_m_cost_kib, (), memory),
        call_ensures(default_kdf_t_cost, (), rounds),
        call_ensures(default_kdf_p_cost, (), lanes),
        call_ensures(default_log_level, (), level),
        call_ensures(default_log_format, (), format),
    ensures
        memory == 19_456 && rounds == 2 && lanes == 1,
        level@ == "info"@ && format@ == "text"@,
{
}

/// Each backend is spelled as a file spells it.
pub proof fn a_backend_is_spelled_as_in_a_file(kind: BackendKind, r: &'static str)
    requires
        call_ensures(BackendKind::as_str, (kind,), r),
    ensures
        kind == BackendKind::Static ==> r@ == "static"@,
        kind == BackendKind::Dns ==> r@ == "dns"@,
        kind == BackendKind::File ==> r@ == "file"@,
        kind == BackendKind::Ec2Asg ==> r@ == "ec2-asg"@,
{
}

/// The chain over its seams: a configured host is dialled whatever they would
/// answer; a qualified name that resolves is dialled without asking for the
/// route; and where the system has no qualified name the route decides.
pub proof fn the_chain_goes_as_far_as_it_needs<H, R, D>(
    explicit: Option<&str>,
    hostname: H,
    resolves: R,
    default_route: D,
    name: Option<String>,
    known: bool,
    route: Option<String>,
    r: Result<String, String>,
) where
    H: FnOnce() -> Option<String>,
    R: FnOnce(&str) -> bool,
    D: FnOnce() -> Option<String>,

    requires
        call_ensures(
            resolve_advertise_host_with::<H, R, D>,
            (explicit, hostname, resolves, default_route),
            r,
        ),
        forall|n: Option<String>| #[trigger] hostname.ensures((), n) ==> n == name,
        forall|asked: &str, k: bool| #[trigger] resolves.ensures((asked,), k) ==> k == known,
        forall|d: Option<String>| #[trigger] default_route.ensures((), d) ==> d == route,
    ensures
        explicit is Some ==> (r matches Ok(h) && h@ == explicit->0@),
        explicit is None && name is Some && name->0@.contains('.') && known ==> (r matches Ok(h)
            && h@ == name->0@),
        explicit is None && !(name is Some && name->0@.contains('.') && known) && route is Some ==> (
        r matches Ok(h) && h@ == route->0@),
        explicit is None && !(name is Some && name->0@.contains('.') && known) && route is None
            ==> r is Err,
{
}

} // verus!
