//! The steps of a formation, in their order.
//!
//! The order is what makes a partial formation identifiable: whatever can be
//! rejected on its own merits comes first, the intent is stamped before
//! anything else durable, replicated writes wait for the raft history to
//! exist, and the marker is last.
//!
//! A formation carries what its steps act on: the history it minted, the node
//! and the certificate it was given, the machine it binds. The cluster's
//! private key is not among that; it stays with whoever minted it.

use vstd::prelude::*;
use vstd::string::*;

use crate::bootstrap::boot::{node_options, NodeOptions, StartIntent};
use crate::cluster;
use crate::cluster::MachineId;
use crate::config::{Config, TlsConfig};
use crate::formation::guard;
use crate::formation::guard::leaf_sans;
use crate::formation::startup::FormationMarks;
use crate::limits::EVENT_TAP_CAPACITY;
use crate::text;
use crate::wire::copy_bytes;

verus! {

/// The common name of an operator certificate when none is chosen.
pub const DEFAULT_OPERATOR_CN: &'static str = "day0-operator";

// ---------------------------------------------------------------------------
// The order
// ---------------------------------------------------------------------------

/// One step.
#[derive(Debug, Clone, Copy, PartialEq, Eq, Structural)]
pub enum FormStage {
    ParsePolicy,
    /// Order the policy against an empty state, to fail before anything
    /// durable.
    ValidatePolicy,
    /// One round of discovery and probes: no such cluster may exist.
    Guard,
    /// Mint the history, stamp identity and intent.
    StampIntent,
    MintCa,
    WriteCaKey,
    LoadSigner,
    PersistMachine,
    IssueLeaf,
    InstallLeaf,
    LoadTls,
    StartConsensus,
    InitializeVoter,
    ParseBundle,
    /// Record the certificate and bind this machine to its seat.
    RecordCa,
    IssueOperator,
    PlanPolicy,
    ApplyPolicy,
    /// Stamp the completion marker.
    Mark,
}

/// Where a formation can be made to stop, either side of the raft history.
#[derive(Debug, Clone, Copy, PartialEq, Eq, Structural)]
pub enum Failpoint {
    BeforeRaftInitialize,
    AfterRaftInitialize,
}

/// What the daemon brings to a formation.
#[derive(Clone)]
pub struct FormContext {
    pub config: Config,
    /// Where peers dial this node.
    pub advertise_addr: String,
    /// Whether the daemon held TLS material already.
    pub had_tls: bool,
    /// The identity minted for this installation.
    pub machine: MachineId,
    pub failpoint: Option<Failpoint>,
}

/// What an operator asks for besides forming.
#[derive(Debug, Clone)]
pub struct FormRequest {
    pub policy: Option<Vec<u8>>,
    /// A request to sign; without one the keypair is minted.
    pub operator_csr: Option<Vec<u8>>,
    pub operator_cn: Option<String>,
}

/// The position of a step in the order.
pub open spec fn rank(stage: FormStage) -> int {
    match stage {
        FormStage::ParsePolicy => 0,
        FormStage::ValidatePolicy => 1,
        FormStage::Guard => 2,
        FormStage::StampIntent => 3,
        FormStage::MintCa => 4,
        FormStage::WriteCaKey => 5,
        FormStage::LoadSigner => 6,
        FormStage::PersistMachine => 7,
        FormStage::IssueLeaf => 8,
        FormStage::InstallLeaf => 9,
        FormStage::LoadTls => 10,
        FormStage::StartConsensus => 11,
        FormStage::InitializeVoter => 12,
        FormStage::ParseBundle => 13,
        FormStage::RecordCa => 14,
        FormStage::IssueOperator => 15,
        FormStage::PlanPolicy => 16,
        FormStage::ApplyPolicy => 17,
        FormStage::Mark => 18,
    }
}

/// The first step: a policy is read before anything else.
pub open spec fn first_stage(policy: bool) -> FormStage {
    if policy {
        FormStage::ParsePolicy
    } else {
        FormStage::Guard
    }
}

/// The step that follows a step that succeeded; none after the marker.
pub open spec fn next_stage(stage: FormStage, policy: bool) -> Option<FormStage> {
    match stage {
        FormStage::ParsePolicy => Some(FormStage::ValidatePolicy),
        FormStage::ValidatePolicy => Some(FormStage::Guard),
        FormStage::Guard => Some(FormStage::StampIntent),
        FormStage::StampIntent => Some(FormStage::MintCa),
        FormStage::MintCa => Some(FormStage::WriteCaKey),
        FormStage::WriteCaKey => Some(FormStage::LoadSigner),
        FormStage::LoadSigner => Some(FormStage::PersistMachine),
        FormStage::PersistMachine => Some(FormStage::IssueLeaf),
        FormStage::IssueLeaf => Some(FormStage::InstallLeaf),
        FormStage::InstallLeaf => Some(FormStage::LoadTls),
        FormStage::LoadTls => Some(FormStage::StartConsensus),
        FormStage::StartConsensus => Some(FormStage::InitializeVoter),
        FormStage::InitializeVoter => Some(FormStage::ParseBundle),
        FormStage::ParseBundle => Some(FormStage::RecordCa),
        FormStage::RecordCa => Some(FormStage::IssueOperator),
        FormStage::IssueOperator => if policy {
            Some(FormStage::PlanPolicy)
        } else {
            Some(FormStage::Mark)
        },
        FormStage::PlanPolicy => Some(FormStage::ApplyPolicy),
        FormStage::ApplyPolicy => Some(FormStage::Mark),
        FormStage::Mark => None,
    }
}

/// Whether the replica is live when this step runs, so that a failure must
/// stop it.
pub open spec fn runs_live(stage: FormStage) -> bool {
    rank(stage) >= rank(FormStage::ParseBundle)
}

/// What a failure of this step is told as; nothing where the failure speaks
/// for itself.
pub open spec fn context_of(ctx: FormContext, stage: FormStage) -> Option<Seq<char>> {
    match stage {
        FormStage::ParsePolicy => Some("parsing the bootstrap policy"@),
        FormStage::ValidatePolicy => Some("validating the bootstrap policy"@),
        FormStage::Guard => None,
        FormStage::StampIntent => Some(
            "stamping a formation intent into the data directory "@ + ctx.config.data_dir@,
        ),
        FormStage::MintCa => Some("minting the cluster root CA"@),
        FormStage::WriteCaKey => Some("writing the cluster CA key"@),
        FormStage::LoadSigner => Some("loading the freshly minted cluster CA for signing"@),
        FormStage::PersistMachine => Some("persisting this coordinator's machine identity"@),
        FormStage::IssueLeaf => Some("issuing this coordinator's own leaf certificate"@),
        FormStage::InstallLeaf => Some(
            "installing the cluster-minted leaf into the configured [tls] paths"@,
        ),
        FormStage::LoadTls => Some(
            if ctx.had_tls {
                "reloading TLS material after installing the cluster-minted leaf"@
            } else {
                "loading the TLS store from the freshly minted material"@
            },
        ),
        FormStage::StartConsensus => Some(
            "starting consensus on the freshly stamped data directory"@,
        ),
        FormStage::InitializeVoter => Some("creating the single-voter cluster"@),
        FormStage::ParseBundle => Some("the minted cluster CA is not a valid CA bundle"@),
        FormStage::RecordCa => Some(
            "recording the cluster CA and this node's machine identity"@,
        ),
        FormStage::IssueOperator => None,
        FormStage::PlanPolicy => None,
        FormStage::ApplyPolicy => Some("applying the bootstrap policy"@),
        FormStage::Mark => Some("stamping the formation_complete marker"@),
    }
}

/// How a failure reads.
pub open spec fn failure_text(context: Option<Seq<char>>, error: Seq<char>) -> Seq<char> {
    match context {
        Some(c) => c + ": "@ + error,
        None => error,
    }
}

/// The failpoint that stands right after a step, if any.
pub open spec fn failpoint_after(stage: FormStage) -> Option<Failpoint> {
    match stage {
        FormStage::LoadTls => Some(Failpoint::BeforeRaftInitialize),
        FormStage::InitializeVoter => Some(Failpoint::AfterRaftInitialize),
        _ => None,
    }
}

/// What stopping at a failpoint reads as.
pub open spec fn failpoint_text(at: Failpoint) -> Seq<char> {
    match at {
        Failpoint::BeforeRaftInitialize =>
        "formation aborted at the BeforeRaftInitialize failpoint (test-only)"@,
        Failpoint::AfterRaftInitialize =>
        "formation aborted at the AfterRaftInitialize failpoint (test-only)"@,
    }
}

fn context(ctx: &FormContext, stage: FormStage) -> (r: Option<String>)
    ensures
        match r {
            Some(c) => context_of(*ctx, stage) == Some(c@),
            None => context_of(*ctx, stage) is None,
        },
{
    match stage {
        FormStage::ParsePolicy => Some("parsing the bootstrap policy".to_owned()),
        FormStage::ValidatePolicy => Some("validating the bootstrap policy".to_owned()),
        FormStage::Guard => None,
        FormStage::StampIntent => Some(
            "stamping a formation intent into the data directory ".to_owned().concat(
                ctx.config.data_dir.as_str(),
            ),
        ),
        FormStage::MintCa => Some("minting the cluster root CA".to_owned()),
        FormStage::WriteCaKey => Some("writing the cluster CA key".to_owned()),
        FormStage::LoadSigner => Some(
            "loading the freshly minted cluster CA for signing".to_owned(),
        ),
        FormStage::PersistMachine => Some(
            "persisting this coordinator's machine identity".to_owned(),
        ),
        FormStage::IssueLeaf => Some("issuing this coordinator's own leaf certificate".to_owned()),
        FormStage::InstallLeaf => Some(
            "installing the cluster-minted leaf into the configured [tls] paths".to_owned(),
        ),
        FormStage::LoadTls => Some(
            if ctx.had_tls {
                "reloading TLS material after installing the cluster-minted leaf".to_owned()
            } else {
                "loading the TLS store from the freshly minted material".to_owned()
            },
        ),
        FormStage::StartConsensus => Some(
            "starting consensus on the freshly stamped data directory".to_owned(),
        ),
        FormStage::InitializeVoter => Some("creating the single-voter cluster".to_owned()),
        FormStage::ParseBundle => Some(
            "the minted cluster CA is not a valid CA bundle".to_owned(),
        ),
        FormStage::RecordCa => Some(
            "recording the cluster CA and this node's machine identity".to_owned(),
        ),
        FormStage::IssueOperator => None,
        FormStage::PlanPolicy => None,
        FormStage::ApplyPolicy => Some("applying the bootstrap policy".to_owned()),
        FormStage::Mark => Some("stamping the formation_complete marker".to_owned()),
    }
}

fn live(stage: FormStage) -> (r: bool)
    ensures
        r == runs_live(stage),
{
    match stage {
        FormStage::ParseBundle => true,
        FormStage::RecordCa => true,
        FormStage::IssueOperator => true,
        FormStage::PlanPolicy => true,
        FormStage::ApplyPolicy => true,
        FormStage::Mark => true,
        _ => false,
    }
}

fn follow(stage: FormStage, policy: bool) -> (r: Option<FormStage>)
    ensures
        r == next_stage(stage, policy),
{
    match stage {
        FormStage::ParsePolicy => Some(FormStage::ValidatePolicy),
        FormStage::ValidatePolicy => Some(FormStage::Guard),
        FormStage::Guard => Some(FormStage::StampIntent),
        FormStage::StampIntent => Some(FormStage::MintCa),
        FormStage::MintCa => Some(FormStage::WriteCaKey),
        FormStage::WriteCaKey => Some(FormStage::LoadSigner),
        FormStage::LoadSigner => Some(FormStage::PersistMachine),
        FormStage::PersistMachine => Some(FormStage::IssueLeaf),
        FormStage::IssueLeaf => Some(FormStage::InstallLeaf),
        FormStage::InstallLeaf => Some(FormStage::LoadTls),
        FormStage::LoadTls => Some(FormStage::StartConsensus),
        FormStage::StartConsensus => Some(FormStage::InitializeVoter),
        FormStage::InitializeVoter => Some(FormStage::ParseBundle),
        FormStage::ParseBundle => Some(FormStage::RecordCa),
        FormStage::RecordCa => Some(FormStage::IssueOperator),
        FormStage::IssueOperator => if policy {
            Some(FormStage::PlanPolicy)
        } else {
            Some(FormStage::Mark)
        },
        FormStage::PlanPolicy => Some(FormStage::ApplyPolicy),
        FormStage::ApplyPolicy => Some(FormStage::Mark),
        FormStage::Mark => None,
    }
}

// ---------------------------------------------------------------------------
// A formation under way
// ---------------------------------------------------------------------------

/// A formation at one of its steps.
#[derive(Clone)]
pub struct Forming {
    pub ctx: FormContext,
    pub req: FormRequest,
    pub stage: FormStage,
    /// The raft history, minted once the guard is passed.
    pub history: Vec<u8>,
    /// This node's raft identity, known once the intent is stamped.
    pub node_id: u64,
    /// The cluster's certificate, known once it is minted.
    pub ca_pem: Vec<u8>,
    /// The certificate as text, once the raft history exists.
    pub ca_text: String,
    /// The operator's credential, once issued.
    pub operator: Option<OperatorCredential>,
}

impl Forming {
    /// What is known at a step.
    pub open spec fn wf(self) -> bool {
        &&& self.stage == FormStage::ParsePolicy ==> self.req.policy is Some
        &&& rank(self.stage) >= rank(FormStage::StampIntent) ==> cluster::randomly_minted(
            self.history@,
        )
        &&& rank(self.stage) > rank(FormStage::InitializeVoter) ==> {
            &&& vstd::utf8::valid_utf8(self.ca_pem@)
            &&& self.ca_text@ == vstd::utf8::decode_utf8(self.ca_pem@)
        }
        &&& rank(self.stage) > rank(FormStage::IssueOperator) ==> self.operator is Some
    }

    /// The step after this one, if any.
    pub open spec fn upcoming(self) -> Option<FormStage> {
        next_stage(self.stage, self.req.policy is Some)
    }
}

/// Whether `g` is `f` one step on: what a step did not make is kept.
pub open spec fn goes_to(f: Forming, g: Forming) -> bool {
    &&& f.upcoming() == Some(g.stage)
    &&& g.ctx == f.ctx
    &&& g.req == f.req
    &&& f.stage != FormStage::Guard ==> g.history == f.history
    &&& f.stage != FormStage::StampIntent ==> g.node_id == f.node_id
    &&& f.stage != FormStage::MintCa ==> g.ca_pem == f.ca_pem
    &&& f.stage != FormStage::InitializeVoter ==> g.ca_text == f.ca_text
    &&& f.stage != FormStage::IssueOperator ==> g.operator == f.operator
}

/// What a formation does at a step, and with what.
#[derive(Debug, Clone)]
pub enum FormAct {
    ParsePolicy { policy: Vec<u8> },
    /// Order the parsed policy against an empty state.
    ValidatePolicy,
    /// Ask the neighbours of this address for the cluster.
    Guard { advertise_addr: String },
    /// Stamp this history and the intent; the node's identity comes back.
    StampIntent { data_dir: String, history: Vec<u8> },
    /// Mint the cluster's root; its certificate comes back.
    MintCa,
    /// Write the minted root's key, owner-only.
    WriteCaKey { data_dir: String },
    /// Load the minted root for signing.
    LoadSigner,
    PersistMachine { data_dir: String, machine: MachineId },
    /// Issue this node's own leaf, for this machine under these names.
    IssueLeaf { machine: MachineId, sans: Vec<String> },
    /// Install the issued leaf and this certificate.
    InstallLeaf { tls: TlsConfig, ca_pem: Vec<u8> },
    /// Load the installed material, or reload it over what was held.
    LoadTls { tls: TlsConfig, reload: bool },
    StartConsensus { options: NodeOptions, intent: StartIntent },
    /// Create the cluster of one voter, dialled here.
    InitializeVoter { address: String },
    /// Read this certificate as a bundle.
    ParseBundle { pem: String },
    /// Record this certificate and bind the machine to the seat.
    RecordCa { pem: String, machine: MachineId, node_id: u64, address: String },
    /// Sign this request, or mint a keypair, under this name.
    IssueOperator { cn: String, csr: Option<Vec<u8>> },
    /// Order the parsed policy against the replicated state.
    PlanPolicy,
    /// Propose what the policy came to.
    ApplyPolicy,
    /// Stamp the completion marker.
    Mark,
}

/// Whether these are the paths of the TLS section.
pub open spec fn same_paths(a: TlsConfig, b: TlsConfig) -> bool {
    a.cert_path@ == b.cert_path@ && a.key_path@ == b.key_path@ && a.ca_path@ == b.ca_path@
}

/// Whether consensus is started on the data directory of this formation, as
/// configured and under its history.
pub open spec fn starts_on(options: NodeOptions, f: Forming) -> bool {
    &&& options.history_id@ == f.history@
    &&& options.advertise_addr@ == f.ctx.advertise_addr@
    &&& options.data_dir@ == f.ctx.config.data_dir@
    &&& options.election_timeout == f.ctx.config.raft.election_timeout
    &&& options.heartbeat_interval == f.ctx.config.raft.heartbeat_interval
    &&& options.rpc_timeout == f.ctx.config.raft.rpc_timeout
    &&& options.snapshot_log_entries == f.ctx.config.raft.snapshot_log_entries
    &&& options.snapshot_keep_log_entries == f.ctx.config.raft.snapshot_keep_log_entries
    &&& options.event_tap_capacity == EVENT_TAP_CAPACITY
}

/// Whether `act` is what a formation does at its step.
pub open spec fn acts(f: Forming, act: FormAct) -> bool {
    let dir = f.ctx.config.data_dir@;
    match f.stage {
        FormStage::ParsePolicy => act matches FormAct::ParsePolicy { policy } && policy@
            == f.req.policy->0@,
        FormStage::ValidatePolicy => act is ValidatePolicy,
        FormStage::Guard => act matches FormAct::Guard { advertise_addr } && advertise_addr@
            == f.ctx.advertise_addr@,
        FormStage::StampIntent => act matches FormAct::StampIntent { data_dir, history }
            && data_dir@ == dir && history@ == f.history@,
        FormStage::MintCa => act is MintCa,
        FormStage::WriteCaKey => act matches FormAct::WriteCaKey { data_dir } && data_dir@ == dir,
        FormStage::LoadSigner => act is LoadSigner,
        FormStage::PersistMachine => act matches FormAct::PersistMachine { data_dir, machine }
            && data_dir@ == dir && machine == f.ctx.machine,
        FormStage::IssueLeaf => act matches FormAct::IssueLeaf { machine, sans } && machine
            == f.ctx.machine && text::views(sans@) == guard::sans_of(
            match f.ctx.config.listen.advertise_host {
                Some(h) => Some(h@),
                None => None,
            },
        ),
        FormStage::InstallLeaf => act matches FormAct::InstallLeaf { tls, ca_pem } && same_paths(
            tls,
            f.ctx.config.tls,
        ) && ca_pem@ == f.ca_pem@,
        FormStage::LoadTls => act matches FormAct::LoadTls { tls, reload } && same_paths(
            tls,
            f.ctx.config.tls,
        ) && reload == f.ctx.had_tls,
        FormStage::StartConsensus => act matches FormAct::StartConsensus { options, intent }
            && starts_on(options, f) && intent == StartIntent::Restart,
        FormStage::InitializeVoter => act matches FormAct::InitializeVoter { address } && address@
            == f.ctx.advertise_addr@,
        FormStage::ParseBundle => act matches FormAct::ParseBundle { pem } && pem@ == f.ca_text@,
        FormStage::RecordCa => act matches FormAct::RecordCa { pem, machine, node_id, address }
            && pem@ == f.ca_text@ && machine == f.ctx.machine && node_id == f.node_id && address@
            == f.ctx.advertise_addr@,
        FormStage::IssueOperator => act matches FormAct::IssueOperator { cn, csr } && cn@ == cn_of(
            f.req,
        ) && (match f.req.operator_csr {
            Some(asked) => csr matches Some(c) && c@ == asked@,
            None => csr is None,
        }),
        FormStage::PlanPolicy => act is PlanPolicy,
        FormStage::ApplyPolicy => act is ApplyPolicy,
        FormStage::Mark => act is Mark,
    }
}

/// A cluster that was formed.
#[derive(Debug, Clone)]
pub struct Formation {
    pub machine: MachineId,
    pub node_id: u64,
    pub history: Vec<u8>,
    pub operator: OperatorCredential,
}

/// What a formation does next.
#[derive(Clone)]
pub enum FormNext {
    Do(Forming),
    Complete(Formation),
    /// The formation failed. A replica that was brought up is stopped first.
    Fail { message: String, stop_replica: bool },
}

/// Whether a formation failed like this.
pub open spec fn fails(r: FormNext, text: Seq<char>, live: bool) -> bool {
    r matches FormNext::Fail { message, stop_replica } && message@ == text && stop_replica == live
}

/// Whether a step hands something back besides having succeeded.
pub open spec fn yields(stage: FormStage) -> bool {
    stage == FormStage::StampIntent || stage == FormStage::MintCa || stage
        == FormStage::IssueOperator
}

/// Whether a failpoint is armed right after this step.
pub open spec fn stops_after(failpoint: Option<Failpoint>, stage: FormStage) -> bool {
    failpoint_after(stage) is Some && failpoint == failpoint_after(stage)
}

/// Begin a formation.
pub fn form(ctx: FormContext, req: FormRequest) -> (r: Forming)
    ensures
        r.wf(),
        r.ctx == ctx,
        r.req == req,
        r.stage == first_stage(req.policy is Some),
{
    let stage = if req.policy.is_some() {
        FormStage::ParsePolicy
    } else {
        FormStage::Guard
    };
    Forming {
        ctx,
        req,
        stage,
        history: Vec::new(),
        node_id: 0,
        ca_pem: Vec::new(),
        ca_text: "".to_owned(),
        operator: None,
    }
}

fn copy_paths(tls: &TlsConfig) -> (r: TlsConfig)
    ensures
        same_paths(r, *tls),
{
    TlsConfig {
        cert_path: tls.cert_path.clone(),
        key_path: tls.key_path.clone(),
        ca_path: tls.ca_path.clone(),
    }
}

impl Forming {
    /// What this step does, and with what.
    pub fn act(&self) -> (r: FormAct)
        requires
            self.wf(),
        ensures
            acts(*self, r),
    {
        let cfg = &self.ctx.config;
        match self.stage {
            FormStage::ParsePolicy => {
                let policy = self.req.policy.as_ref().unwrap();
                FormAct::ParsePolicy { policy: copy_bytes(policy) }
            },
            FormStage::ValidatePolicy => FormAct::ValidatePolicy,
            FormStage::Guard => FormAct::Guard { advertise_addr: self.ctx.advertise_addr.clone() },
            FormStage::StampIntent => FormAct::StampIntent {
                data_dir: cfg.data_dir.clone(),
                history: copy_bytes(&self.history),
            },
            FormStage::MintCa => FormAct::MintCa,
            FormStage::WriteCaKey => FormAct::WriteCaKey { data_dir: cfg.data_dir.clone() },
            FormStage::LoadSigner => FormAct::LoadSigner,
            FormStage::PersistMachine => FormAct::PersistMachine {
                data_dir: cfg.data_dir.clone(),
                machine: self.ctx.machine,
            },
            FormStage::IssueLeaf => FormAct::IssueLeaf {
                machine: self.ctx.machine,
                sans: leaf_sans(&cfg.listen.advertise_host),
            },
            FormStage::InstallLeaf => FormAct::InstallLeaf {
                tls: copy_paths(&cfg.tls),
                ca_pem: copy_bytes(&self.ca_pem),
            },
            FormStage::LoadTls => FormAct::LoadTls {
                tls: copy_paths(&cfg.tls),
                reload: self.ctx.had_tls,
            },
            FormStage::StartConsensus => FormAct::StartConsensus {
                options: node_options(
                    cfg,
                    copy_bytes(&self.history),
                    self.ctx.advertise_addr.clone(),
                ),
                intent: StartIntent::Restart,
            },
            FormStage::InitializeVoter => FormAct::InitializeVoter {
                address: self.ctx.advertise_addr.clone(),
            },
            FormStage::ParseBundle => FormAct::ParseBundle { pem: self.ca_text.clone() },
            FormStage::RecordCa => FormAct::RecordCa {
                pem: self.ca_text.clone(),
                machine: self.ctx.machine,
                node_id: self.node_id,
                address: self.ctx.advertise_addr.clone(),
            },
            FormStage::IssueOperator => FormAct::IssueOperator {
                cn: operator_cn(&self.req),
                csr: match &self.req.operator_csr {
                    Some(csr) => Some(copy_bytes(csr)),
                    None => None,
                },
            },
            FormStage::PlanPolicy => FormAct::PlanPolicy,
            FormStage::ApplyPolicy => FormAct::ApplyPolicy,
            FormStage::Mark => FormAct::Mark,
        }
    }

    fn failed(&self, error: String) -> (r: FormNext)
        ensures
            fails(
                r,
                failure_text(context_of(self.ctx, self.stage), error@),
                runs_live(self.stage),
            ),
    {
        let message = match context(&self.ctx, self.stage) {
            Some(c) => c.concat(": ").concat(error.as_str()),
            None => error,
        };
        FormNext::Fail { message, stop_replica: live(self.stage) }
    }

    /// The intent was stamped under this node identity, or not.
    pub fn on_stamped(self, stamped: Result<u64, String>) -> (r: FormNext)
        requires
            self.wf(),
            self.stage == FormStage::StampIntent,
        ensures
            match stamped {
                Err(e) => fails(
                    r,
                    failure_text(context_of(self.ctx, FormStage::StampIntent), e@),
                    false,
                ),
                Ok(node_id) => r == FormNext::Do(
                    (Forming { stage: FormStage::MintCa, node_id, ..self }),
                ),
            },
            r matches FormNext::Do(f) ==> f.wf() && goes_to(self, f),
    {
        match stamped {
            Err(e) => self.failed(e),
            Ok(node_id) => FormNext::Do(Forming { stage: FormStage::MintCa, node_id, ..self }),
        }
    }

    /// The cluster's root was minted with this certificate, or not.
    pub fn on_ca_minted(self, minted: Result<Vec<u8>, String>) -> (r: FormNext)
        requires
            self.wf(),
            self.stage == FormStage::MintCa,
        ensures
            match minted {
                Err(e) => fails(
                    r,
                    failure_text(context_of(self.ctx, FormStage::MintCa), e@),
                    false,
                ),
                Ok(ca_pem) => r == FormNext::Do(
                    (Forming { stage: FormStage::WriteCaKey, ca_pem, ..self }),
                ),
            },
            r matches FormNext::Do(f) ==> f.wf() && goes_to(self, f),
    {
        match minted {
            Err(e) => self.failed(e),
            Ok(ca_pem) => FormNext::Do(Forming { stage: FormStage::WriteCaKey, ca_pem, ..self }),
        }
    }

    /// The operator's certificate was signed or minted, or not.
    pub fn on_operator_issued(self, issued: Issued) -> (r: FormNext)
        requires
            self.wf(),
            self.stage == FormStage::IssueOperator,
        ensures
            match credential_fault(self.req.operator_csr is Some, self.ca_pem@, issued) {
                Some(text) => fails(r, text, true),
                None => r matches FormNext::Do(f) && (f.operator matches Some(c) && made_of(
                    c,
                    self.ca_pem@,
                    issued,
                )),
            },
            r matches FormNext::Do(f) ==> f.wf() && goes_to(self, f),
    {
        let credential = issue_operator_credential(&self.req, copy_bytes(&self.ca_pem), issued);
        match credential {
            Err(message) => FormNext::Fail { message, stop_replica: true },
            Ok(c) => {
                let stage = if self.req.policy.is_some() {
                    FormStage::PlanPolicy
                } else {
                    FormStage::Mark
                };
                FormNext::Do(Forming { stage, operator: Some(c), ..self })
            },
        }
    }

    /// Any other step ended: what comes next. Past the guard a history is
    /// minted, never derived. Once the raft history exists the certificate is
    /// read as text. Whoever fails from there on takes the replica down with
    /// it.
    pub fn on_step(self, outcome: Result<(), String>) -> (r: FormNext)
        requires
            self.wf(),
            !yields(self.stage),
        ensures
            match outcome {
                Err(e) => fails(
                    r,
                    failure_text(context_of(self.ctx, self.stage), e@),
                    runs_live(self.stage),
                ),
                Ok(_) => if stops_after(self.ctx.failpoint, self.stage) {
                    fails(
                        r,
                        failpoint_text(self.ctx.failpoint->0),
                        self.stage == FormStage::InitializeVoter,
                    )
                } else if self.stage == FormStage::Guard {
                    r matches FormNext::Do(f) && cluster::randomly_minted(f.history@)
                } else if self.stage == FormStage::InitializeVoter {
                    if vstd::utf8::valid_utf8(self.ca_pem@) {
                        r matches FormNext::Do(f) && f.ca_text@ == vstd::utf8::decode_utf8(
                            self.ca_pem@,
                        )
                    } else {
                        fails(
                            r,
                            "cluster CA certificate is not UTF-8: "@ + text::utf8_complaint(
                                self.ca_pem@,
                            ),
                            true,
                        )
                    }
                } else {
                    match self.upcoming() {
                        Some(stage) => r == FormNext::Do((Forming { stage, ..self })),
                        None => r == FormNext::Complete(
                            (Formation {
                                machine: self.ctx.machine,
                                node_id: self.node_id,
                                history: self.history,
                                operator: self.operator->0,
                            }),
                        ),
                    }
                },
            },
            r matches FormNext::Do(f) ==> f.wf() && goes_to(self, f),
    {
        if let Err(e) = outcome {
            return self.failed(e);
        }
        match (self.stage, self.ctx.failpoint) {
            (FormStage::LoadTls, Some(Failpoint::BeforeRaftInitialize)) => {
                return FormNext::Fail {
                    message:
                        "formation aborted at the BeforeRaftInitialize failpoint (test-only)".to_owned(),
                    stop_replica: false,
                };
            },
            (FormStage::InitializeVoter, Some(Failpoint::AfterRaftInitialize)) => {
                return FormNext::Fail {
                    message:
                        "formation aborted at the AfterRaftInitialize failpoint (test-only)".to_owned(),
                    stop_replica: true,
                };
            },
            _ => {},
        }
        let stage = match follow(self.stage, self.req.policy.is_some()) {
            Some(stage) => stage,
            None => {
                let operator = self.operator.unwrap();
                return FormNext::Complete(
                    Formation {
                        machine: self.ctx.machine,
                        node_id: self.node_id,
                        history: self.history,
                        operator,
                    },
                );
            },
        };
        match self.stage {
            FormStage::Guard => {
                let history = cluster::mint_history();
                FormNext::Do(Forming { stage, history, ..self })
            },
            FormStage::InitializeVoter => match text::decoded(copy_bytes(&self.ca_pem)) {
                Ok(ca_text) => FormNext::Do(Forming { stage, ca_text, ..self }),
                Err(e) => FormNext::Fail {
                    message: "cluster CA certificate is not UTF-8: ".to_owned().concat(
                        e.as_str(),
                    ),
                    stop_replica: true,
                },
            },
            _ => FormNext::Do(Forming { stage, ..self }),
        }
    }
}

/// Whether these are the states of one formation, in order.
pub open spec fn forms(run: Seq<Forming>) -> bool {
    &&& run.len() > 0
    &&& forall|i: int| 0 <= i < run.len() - 1 ==> goes_to(#[trigger] run[i], run[i + 1])
}

/// What a formation stamps is what it serves and records: from the step after
/// the root was minted, the history, the node, the certificate and what the
/// daemon and the operator brought never change.
pub proof fn what_was_stamped_is_what_is_recorded(run: Seq<Forming>, i: int, j: int)
    requires
        forms(run),
        0 <= i <= j < run.len(),
        rank(run[i].stage) > rank(FormStage::MintCa),
    ensures
        run[j].history == run[i].history,
        run[j].node_id == run[i].node_id,
        run[j].ca_pem == run[i].ca_pem,
        run[j].ctx == run[i].ctx,
        run[j].req == run[i].req,
        rank(run[j].stage) > rank(FormStage::MintCa),
    decreases j - i,
{
    if i < j {
        what_was_stamped_is_what_is_recorded(run, i, j - 1);
        assert(goes_to(run[j - 1], run[j - 1 + 1]));
    }
}

/// The history a formation starts consensus on is the one it stamped, and it
/// was minted.
pub proof fn consensus_starts_on_the_stamped_history(run: Seq<Forming>, i: int, j: int, act: FormAct)
    requires
        forms(run),
        0 <= i < j < run.len(),
        run[i].wf(),
        run[i].stage == FormStage::StampIntent,
        run[j].stage == FormStage::StartConsensus,
        acts(run[j], act),
    ensures
        act matches FormAct::StartConsensus { options, .. } && options.history_id@
            == run[i].history@,
        cluster::randomly_minted(run[i].history@),
{
    assert(goes_to(run[i], run[i + 1]));
    assert(run[i + 1].stage == FormStage::MintCa);
    assert(j > i + 1);
    assert(goes_to(run[i + 1], run[i + 1 + 1]));
    what_was_stamped_is_what_is_recorded(run, i + 2, j);
}

// ---------------------------------------------------------------------------
// What the order gives
// ---------------------------------------------------------------------------

/// Whether these are the steps of one formation, in order.
pub open spec fn formation_run(policy: bool, run: Seq<FormStage>) -> bool {
    &&& run.len() > 0
    &&& run[0] == first_stage(policy)
    &&& forall|i: int|
        0 <= i < run.len() - 1 ==> next_stage(#[trigger] run[i], policy) == Some(run[i + 1])
}

/// The markers a directory is left with when this step fails: the intent once
/// its step is over, the completion never.
pub open spec fn marks_left(stage: FormStage, intent_at_us: i64) -> FormationMarks {
    FormationMarks {
        intent_at_us: if rank(stage) > rank(FormStage::StampIntent) {
            Some(intent_at_us)
        } else {
            None
        },
        complete_at_us: None,
    }
}

/// A formation that fails after its intent was stamped is identified as
/// partial, wherever it fails; one that fails before leaves no trace.
pub proof fn a_partial_formation_is_identified(stage: FormStage, intent_at_us: i64)
    ensures
        rank(stage) > rank(FormStage::StampIntent) ==> marks_left(stage, intent_at_us).partial(),
        rank(stage) <= rank(FormStage::StampIntent) ==> !marks_left(stage, intent_at_us).partial(),
{
}

/// An operator's typo never costs a data directory: a policy is parsed and
/// validated before the first durable step.
pub proof fn a_policy_is_judged_before_anything_durable(run: Seq<FormStage>, at: int)
    requires
        formation_run(true, run),
        0 <= at < run.len(),
        run[at] == FormStage::StampIntent,
    ensures
        at > 1,
        run[0] == FormStage::ParsePolicy,
        run[1] == FormStage::ValidatePolicy,
{
    ranks_climb(true, run, at);
    let first = 0int;
    assert(next_stage(run[first], true) == Some(run[first + 1]));
}

proof fn ranks_climb(policy: bool, run: Seq<FormStage>, at: int)
    requires
        formation_run(policy, run),
        0 <= at < run.len(),
    ensures
        rank(run[at]) >= at,
        policy && rank(run[at]) <= 15 ==> rank(run[at]) == at,
    decreases at,
{
    if at > 0 {
        ranks_climb(policy, run, at - 1);
        assert(next_stage(run[at - 1], policy) == Some(run[at - 1 + 1]));
    }
}

/// The intent comes before everything durable: whatever runs later in the
/// order runs after it.
pub proof fn the_intent_comes_first(policy: bool, run: Seq<FormStage>, at: int) -> (j: int)
    requires
        formation_run(policy, run),
        0 <= at < run.len(),
        rank(run[at]) > rank(FormStage::StampIntent),
    ensures
        0 <= j < at,
        run[j] == FormStage::StampIntent,
    decreases at,
{
    assert(at > 0);
    assert(next_stage(run[at - 1], policy) == Some(run[at - 1 + 1]));
    if run[at - 1] == FormStage::StampIntent {
        at - 1
    } else {
        the_intent_comes_first(policy, run, at - 1)
    }
}

/// The marker is last: it is the one step nothing follows, and the operator's
/// credential was issued before it.
pub proof fn the_marker_comes_last(policy: bool, run: Seq<FormStage>, at: int) -> (j: int)
    requires
        formation_run(policy, run),
        0 <= at < run.len(),
        run[at] == FormStage::Mark,
    ensures
        at == run.len() - 1,
        0 <= j < at,
        run[j] == FormStage::IssueOperator,
        policy ==> run[at - 1] == FormStage::ApplyPolicy,
{
    if at < run.len() - 1 {
        assert(next_stage(run[at], policy) == Some(run[at + 1]));
    }
    assert(at > 0);
    assert(next_stage(run[at - 1], policy) == Some(run[at - 1 + 1]));
    if policy {
        if run[at - 1] == FormStage::IssueOperator {
            assert(false);
        }
        assert(at - 1 > 0);
        assert(next_stage(run[at - 2], policy) == Some(run[at - 2 + 1]));
        assert(at - 2 > 0);
        assert(next_stage(run[at - 3], policy) == Some(run[at - 3 + 1]));
        at - 3
    } else {
        if run[at - 1] == FormStage::ApplyPolicy {
            assert(at - 1 > 0);
            assert(next_stage(run[at - 2], policy) == Some(run[at - 2 + 1]));
            assert(at - 2 > 0);
            assert(next_stage(run[at - 3], policy) == Some(run[at - 3 + 1]));
        }
        at - 1
    }
}

// ---------------------------------------------------------------------------
// The operator's credential
// ---------------------------------------------------------------------------

/// The credential a formation prints.
#[derive(Debug, Clone)]
pub struct OperatorCredential {
    pub cert_pem: String,
    /// Present only when the keypair was minted.
    pub key_pem: Option<String>,
    pub ca_pem: String,
}

/// The common name the operator's certificate carries.
pub open spec fn cn_of(req: FormRequest) -> Seq<char> {
    match req.operator_cn {
        Some(cn) => cn@,
        None => DEFAULT_OPERATOR_CN@,
    }
}

/// The common name the operator's certificate carries.
pub fn operator_cn(req: &FormRequest) -> (r: String)
    ensures
        r@ == cn_of(*req),
{
    match &req.operator_cn {
        Some(cn) => cn.clone(),
        None => DEFAULT_OPERATOR_CN.to_owned(),
    }
}

/// What signing or minting came to: the certificate, and the key when it was
/// minted.
pub type Issued = Result<(Vec<u8>, Option<Vec<u8>>), String>;

/// What keeps an operator's credential from being issued, if anything, in the
/// order it is found.
pub open spec fn credential_fault(signing: bool, ca_pem: Seq<u8>, issued: Issued) -> Option<
    Seq<char>,
> {
    if !vstd::utf8::valid_utf8(ca_pem) {
        Some("cluster CA bundle is not UTF-8: "@ + text::utf8_complaint(ca_pem))
    } else {
        match issued {
            Err(e) => Some(
                if signing {
                    "signing the operator CSR: "@ + e@
                } else {
                    "minting an operator keypair: "@ + e@
                },
            ),
            Ok((cert, key)) => if !vstd::utf8::valid_utf8(cert@) {
                Some("issued operator certificate is not UTF-8: "@ + text::utf8_complaint(cert@))
            } else if key is Some && !vstd::utf8::valid_utf8(key->0@) {
                Some("minted operator key is not UTF-8: "@ + text::utf8_complaint(key->0@))
            } else {
                None
            },
        }
    }
}

/// Whether a credential is made of this bundle, and of what was issued.
pub open spec fn made_of(c: OperatorCredential, ca_pem: Seq<u8>, issued: Issued) -> bool {
    &&& c.ca_pem@ == vstd::utf8::decode_utf8(ca_pem)
    &&& c.cert_pem@ == vstd::utf8::decode_utf8(issued->Ok_0.0@)
    &&& c.key_pem is Some <==> issued->Ok_0.1 is Some
    &&& c.key_pem matches Some(k) ==> k@ == vstd::utf8::decode_utf8(issued->Ok_0.1->0@)
}

/// The operator's credential: signed from a request, or minted. `issued` is
/// what signing or minting came to.
pub fn issue_operator_credential(req: &FormRequest, ca_pem: Vec<u8>, issued: Issued) -> (r: Result<
    OperatorCredential,
    String,
>)
    ensures
        match credential_fault(req.operator_csr is Some, ca_pem@, issued) {
            Some(text) => r matches Err(e) && e@ == text,
            None => r matches Ok(c) && made_of(c, ca_pem@, issued),
        },
{
    let ca_pem = match text::decoded(ca_pem) {
        Ok(s) => s,
        Err(e) => return Err("cluster CA bundle is not UTF-8: ".to_owned().concat(e.as_str())),
    };
    let (cert, key) = match issued {
        Ok(p) => p,
        Err(e) => {
            return Err(
                if req.operator_csr.is_some() {
                    "signing the operator CSR: ".to_owned().concat(e.as_str())
                } else {
                    "minting an operator keypair: ".to_owned().concat(e.as_str())
                },
            );
        },
    };
    let cert_pem = match text::decoded(cert) {
        Ok(s) => s,
        Err(e) => return Err("issued operator certificate is not UTF-8: ".to_owned().concat(e.as_str())),
    };
    let key_pem = match key {
        None => None,
        Some(k) => match text::decoded(k) {
            Ok(s) => Some(s),
            Err(e) => return Err("minted operator key is not UTF-8: ".to_owned().concat(e.as_str())),
        },
    };
    Ok(OperatorCredential { cert_pem, key_pem, ca_pem })
}

/// What kept the cluster's signer from being loaded.
#[derive(Debug, Clone)]
pub enum SignerFault {
    Unrecorded,
    Key(String),
    Signer(String),
}

/// What having no signer reads as on a formed node.
pub fn load_cluster_ca(data_dir: &str, fault: SignerFault) -> (r: String)
    ensures
        r@ == (match fault {
            SignerFault::Unrecorded =>
            "this cluster has no cluster-owned CA recorded: it was not formed by "@
                + "`coppice coordinator init` (ADR 0037 §4), so there is no key here to sign with"@,
            SignerFault::Key(e) => "loading the cluster CA key from "@ + data_dir@
                + " — signing runs on a voter, which is the only disk that holds it (ADR 0037 §4): "@
                + e@,
            SignerFault::Signer(e) => "loading the cluster CA for signing: "@ + e@,
        }),
{
    match fault {
        SignerFault::Unrecorded =>
        "this cluster has no cluster-owned CA recorded: it was not formed by ".to_owned().concat(
            "`coppice coordinator init` (ADR 0037 §4), so there is no key here to sign with",
        ),
        SignerFault::Key(e) => "loading the cluster CA key from ".to_owned().concat(
            data_dir,
        ).concat(
            " — signing runs on a voter, which is the only disk that holds it (ADR 0037 §4): ",
        ).concat(e.as_str()),
        SignerFault::Signer(e) => "loading the cluster CA for signing: ".to_owned().concat(
            e.as_str(),
        ),
    }
}

// ---------------------------------------------------------------------------
// What each step comes to
// ---------------------------------------------------------------------------

/// A formation begins with its policy where it has one, and with the guard
/// where it has none.
pub proof fn a_formation_begins_with_its_policy(ctx: FormContext, req: FormRequest, r: Forming)
    requires
        call_ensures(form, (ctx, req), r),
    ensures
        r.stage == FormStage::ParsePolicy <==> req.policy is Some,
        r.stage == FormStage::Guard <==> req.policy is None,
        r.ctx == ctx && r.req == req,
{
}

/// A step that succeeded is followed by the next one of the order, one by one,
/// and by no other.
pub proof fn the_steps_follow_one_another(f: Forming, g: Forming, r: FormNext)
    requires
        call_ensures(Forming::on_step, (f, Ok::<(), String>(())), r),
        r == FormNext::Do(g),
    ensures
        f.stage == FormStage::ParsePolicy ==> g.stage == FormStage::ValidatePolicy,
        f.stage == FormStage::ValidatePolicy ==> g.stage == FormStage::Guard,
        f.stage == FormStage::Guard ==> g.stage == FormStage::StampIntent,
        f.stage == FormStage::WriteCaKey ==> g.stage == FormStage::LoadSigner,
        f.stage == FormStage::LoadSigner ==> g.stage == FormStage::PersistMachine,
        f.stage == FormStage::PersistMachine ==> g.stage == FormStage::IssueLeaf,
        f.stage == FormStage::IssueLeaf ==> g.stage == FormStage::InstallLeaf,
        f.stage == FormStage::InstallLeaf ==> g.stage == FormStage::LoadTls,
        f.stage == FormStage::LoadTls ==> g.stage == FormStage::StartConsensus,
        f.stage == FormStage::StartConsensus ==> g.stage == FormStage::InitializeVoter,
        f.stage == FormStage::InitializeVoter ==> g.stage == FormStage::ParseBundle,
        f.stage == FormStage::ParseBundle ==> g.stage == FormStage::RecordCa,
        f.stage == FormStage::RecordCa ==> g.stage == FormStage::IssueOperator,
        f.stage == FormStage::PlanPolicy ==> g.stage == FormStage::ApplyPolicy,
        f.stage == FormStage::ApplyPolicy ==> g.stage == FormStage::Mark,
        f.stage != FormStage::Mark,
        f.stage != FormStage::Guard ==> g.history == f.history,
        g.node_id == f.node_id && g.ca_pem == f.ca_pem && g.ctx == f.ctx && g.req == f.req,
{
}

/// A step that succeeded goes on, unless a failpoint stands right there or the
/// minted certificate is no text; and the marker alone completes, with what
/// was formed.
pub proof fn success_goes_on(f: Forming, r: FormNext)
    requires
        call_ensures(Forming::on_step, (f, Ok::<(), String>(())), r),
    ensures
        r is Fail <==> (f.stage == FormStage::LoadTls && f.ctx.failpoint == Some(
            Failpoint::BeforeRaftInitialize,
        )) || (f.stage == FormStage::InitializeVoter && (f.ctx.failpoint == Some(
            Failpoint::AfterRaftInitialize,
        ) || !vstd::utf8::valid_utf8(f.ca_pem@))),
        r matches FormNext::Fail { stop_replica, .. } ==> (stop_replica <==> f.stage
            == FormStage::InitializeVoter),
        r is Complete <==> f.stage == FormStage::Mark,
        r matches FormNext::Complete(done) ==> done.machine == f.ctx.machine && done.node_id
            == f.node_id && done.history == f.history && (f.operator is Some ==> f.operator
            == Some(done.operator)),
{
}

/// A step that failed fails the formation, and takes a replica down with it
/// exactly where one is up: from the reading of the bundle on.
pub proof fn failure_stops_a_live_replica(f: Forming, error: String, r: FormNext)
    requires
        call_ensures(Forming::on_step, (f, Err::<(), String>(error)), r),
    ensures
        r is Fail,
        r->stop_replica <==> f.stage == FormStage::ParseBundle || f.stage == FormStage::RecordCa
            || f.stage == FormStage::IssueOperator || f.stage == FormStage::PlanPolicy || f.stage
            == FormStage::ApplyPolicy || f.stage == FormStage::Mark,
{
}

/// The three steps that hand something back go on with exactly that.
pub proof fn what_a_step_made_is_kept(
    f: Forming,
    stamped: Result<u64, String>,
    minted: Result<Vec<u8>, String>,
    r: FormNext,
    q: FormNext,
)
    requires
        call_ensures(Forming::on_stamped, (f, stamped), r),
        call_ensures(Forming::on_ca_minted, (f, minted), q),
    ensures
        stamped matches Ok(node) ==> (r matches FormNext::Do(g) && g.node_id == node && g.stage
            == FormStage::MintCa && g.history == f.history),
        stamped is Err ==> (r matches FormNext::Fail { stop_replica, .. } && !stop_replica),
        minted matches Ok(pem) ==> (q matches FormNext::Do(g) && g.ca_pem == pem && g.stage
            == FormStage::WriteCaKey && g.history == f.history && g.node_id == f.node_id),
        minted is Err ==> (q matches FormNext::Fail { stop_replica, .. } && !stop_replica),
{
}

/// After the operator's credential comes the policy where there is one, and
/// the marker where there is none; without a credential neither does, and the
/// replica is stopped.
pub proof fn a_credential_comes_before_the_policy(f: Forming, issued: Issued, r: FormNext)
    requires
        call_ensures(Forming::on_operator_issued, (f, issued), r),
        f.stage == FormStage::IssueOperator,
    ensures
        r is Do <==> vstd::utf8::valid_utf8(f.ca_pem@) && issued is Ok && vstd::utf8::valid_utf8(
            (issued->Ok_0).0@,
        ) && ((issued->Ok_0).1 is Some ==> vstd::utf8::valid_utf8((issued->Ok_0).1->0@)),
        r matches FormNext::Do(g) ==> (g.stage == FormStage::PlanPolicy <==> f.req.policy is Some)
            && (g.stage == FormStage::Mark <==> f.req.policy is None) && g.operator is Some,
        !(r is Do) ==> (r matches FormNext::Fail { stop_replica, .. } && stop_replica),
{
}

/// A credential is the certificate and key that were issued, beside the
/// cluster's own bundle, each as the text its bytes spell; a key is handed out
/// exactly where one was minted.
pub proof fn a_credential_is_what_was_issued(
    req: FormRequest,
    ca_pem: Vec<u8>,
    issued: Issued,
    r: Result<OperatorCredential, String>,
)
    requires
        call_ensures(issue_operator_credential, (&req, ca_pem, issued), r),
    ensures
        r is Ok <==> vstd::utf8::valid_utf8(ca_pem@) && issued is Ok && vstd::utf8::valid_utf8(
            (issued->Ok_0).0@,
        ) && ((issued->Ok_0).1 is Some ==> vstd::utf8::valid_utf8((issued->Ok_0).1->0@)),
        r matches Ok(c) ==> c.ca_pem@ == vstd::utf8::decode_utf8(ca_pem@) && c.cert_pem@
            == vstd::utf8::decode_utf8((issued->Ok_0).0@) && (c.key_pem is Some <==> (
        issued->Ok_0).1 is Some) && (c.key_pem matches Some(k) ==> k@ == vstd::utf8::decode_utf8(
            (issued->Ok_0).1->0@,
        )),
{
}

/// The operator's certificate carries the name that was asked for, and the
/// default one where none was.
pub proof fn an_operator_is_named_as_asked(req: FormRequest, r: String)
    requires
        call_ensures(operator_cn, (&req,), r),
    ensures
        req.operator_cn matches Some(cn) ==> r@ == cn@,
        req.operator_cn is None ==> r@ == "day0-operator"@,
{
}

/// The steps act on what the formation minted and was brought: one history,
/// one machine, one seat, one address, one certificate, and no other.
pub proof fn every_step_acts_on_this_formation(f: Forming, r: FormAct)
    requires
        call_ensures(Forming::act, (&f,), r),
    ensures
        r is StampIntent <==> f.stage == FormStage::StampIntent,
        r is StartConsensus <==> f.stage == FormStage::StartConsensus,
        r is RecordCa <==> f.stage == FormStage::RecordCa,
        r is Mark <==> f.stage == FormStage::Mark,
        r is MintCa <==> f.stage == FormStage::MintCa,
        r is ApplyPolicy <==> f.stage == FormStage::ApplyPolicy,
        r matches FormAct::ParsePolicy { policy } ==> policy@ == f.req.policy->0@,
        r matches FormAct::Guard { advertise_addr } ==> advertise_addr@ == f.ctx.advertise_addr@,
        r matches FormAct::StampIntent { data_dir, history } ==> data_dir@
            == f.ctx.config.data_dir@ && history@ == f.history@,
        r matches FormAct::WriteCaKey { data_dir } ==> data_dir@ == f.ctx.config.data_dir@,
        r matches FormAct::PersistMachine { data_dir, machine } ==> data_dir@
            == f.ctx.config.data_dir@ && machine == f.ctx.machine,
        r matches FormAct::IssueLeaf { machine, .. } ==> machine == f.ctx.machine,
        r matches FormAct::InstallLeaf { tls, ca_pem } ==> ca_pem@ == f.ca_pem@ && tls.cert_path@
            == f.ctx.config.tls.cert_path@ && tls.key_path@ == f.ctx.config.tls.key_path@
            && tls.ca_path@ == f.ctx.config.tls.ca_path@,
        r matches FormAct::LoadTls { reload, .. } ==> reload == f.ctx.had_tls,
        r matches FormAct::StartConsensus { options, .. } ==> options.history_id@ == f.history@
            && options.advertise_addr@ == f.ctx.advertise_addr@ && options.data_dir@
            == f.ctx.config.data_dir@,
        r matches FormAct::InitializeVoter { address } ==> address@ == f.ctx.advertise_addr@,
        r matches FormAct::ParseBundle { pem } ==> pem@ == f.ca_text@,
        r matches FormAct::RecordCa { pem, machine, node_id, address } ==> pem@ == f.ca_text@
            && machine == f.ctx.machine && node_id == f.node_id && address@
            == f.ctx.advertise_addr@,
        r matches FormAct::IssueOperator { csr, .. } ==> (csr is Some <==> f.req.operator_csr
            is Some) && (csr is Some ==> csr->0@ == f.req.operator_csr->0@),
{
}

} // verus!
