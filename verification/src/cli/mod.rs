//! The coordinator's command line.
//!
//! Deliberately tiny: the default invocation takes `--config` and nothing
//! else, because what a daemon does at boot is read from its data directory.
//! `init` forms a cluster, once; `admin` carries the membership operations.

use vstd::prelude::*;

use crate::cluster::{MachineId, NodeId};
use crate::time::Duration;

pub mod parse;
pub mod scan;

verus! {

/// One invocation.
#[derive(Debug, Clone)]
pub struct Cli {
    /// The subcommand; none is the default run.
    pub command: Option<Command>,
    /// The configuration file of the default run.
    pub config: Option<String>,
}

impl Cli {
    /// The arguments of the default run, which always names a configuration.
    pub fn run_args(self) -> (r: RunArgs)
        requires
            self.config is Some,
        ensures
            r.config == self.config->0,
    {
        RunArgs { config: self.config.unwrap() }
    }
}

/// Where an invocation goes.
#[derive(Debug, Clone)]
pub enum Dispatch {
    Init(InitArgs),
    Admin(AdminArgs),
    Run(RunArgs),
}

impl Cli {
    /// Where this invocation goes: without a subcommand, it runs a replica.
    pub fn dispatch(self) -> (r: Dispatch)
        requires
            self.command is None ==> self.config is Some,
        ensures
            match self.command {
                Some(Command::Init(a)) => r == Dispatch::Init(a),
                Some(Command::Admin(a)) => r == Dispatch::Admin(a),
                None => r matches Dispatch::Run(a) && a.config == self.config->0,
            },
    {
        match self.command {
            Some(Command::Init(a)) => Dispatch::Init(a),
            Some(Command::Admin(a)) => Dispatch::Admin(a),
            None => Dispatch::Run(RunArgs { config: self.config.unwrap() }),
        }
    }
}

/// The arguments of the default run. There is one, and that is the design: an
/// intent that an argument can declare is an intent an operator can get wrong.
#[derive(Debug, Clone)]
pub struct RunArgs {
    pub config: String,
}

/// The subcommands.
#[derive(Debug, Clone)]
pub enum Command {
    /// Form this cluster.
    Init(InitArgs),
    /// Operate on the membership of a running cluster.
    Admin(AdminArgs),
}

/// The arguments of `init`.
#[derive(Debug, Clone)]
pub struct InitArgs {
    pub config: String,
    /// A policy to apply as part of formation.
    pub policy: Option<String>,
    /// A request to sign into the first operator certificate.
    pub operator_csr: Option<String>,
    pub operator_cn: Option<String>,
    /// Where to write the issued material in place of printing it.
    pub out_dir: Option<String>,
}

/// The arguments of `admin`.
#[derive(Debug, Clone)]
pub struct AdminArgs {
    pub config: String,
    /// The coordinator to contact; the first discovered one by default.
    pub target: Option<String>,
    pub verb: AdminVerb,
}

/// The membership operations.
#[derive(Debug, Clone)]
pub enum AdminVerb {
    AddLearner { node_id: u64, addr: String },
    Promote { node_id: u64, wait: Duration },
    ReplaceVoter { old: u64, new: u64 },
    Remove { node_id: u64 },
    SetAddress { node_id: u64, addr: String },
    Status { json: bool },
    LocalStatus { json: bool },
    IssueOperatorCert {
        operator_csr: Option<String>,
        operator_cn: Option<String>,
        out_dir: Option<String>,
    },
    RotateCa { verb: RotateCaVerb },
}

/// The moves of a re-root.
#[derive(Debug, Clone, Copy, PartialEq, Eq, Structural)]
pub enum RotateCaVerb {
    Begin,
    Status { json: bool },
    Complete { force: bool },
}

/// The arguments of the enrollment verbs an operator runs from a machine
/// without a coordinator configuration.
#[derive(Debug, Clone)]
pub struct NodeArgs {
    pub target: String,
    pub ca: String,
    pub cert: String,
    pub key: String,
    /// The cluster the target must serve, as a guard.
    pub cluster_id: Option<String>,
    pub verb: NodeVerb,
}

/// The enrollment verbs.
#[derive(Debug, Clone)]
pub enum NodeVerb {
    EnrollToken { verb: EnrollTokenVerb },
    RevokeIdentity { machine: Option<MachineId>, node: Option<NodeId> },
}

/// The token verbs. A token is named by its 128-bit identifier.
#[derive(Debug, Clone)]
pub enum EnrollTokenVerb {
    Mint { role: RoleArg, ttl: Option<Duration>, label: String },
    List,
    Revoke { id: u128 },
}

/// The roles a token can grant.
#[derive(Debug, Clone, Copy, PartialEq, Eq, Structural)]
pub enum RoleArg {
    Agent,
    Coordinator,
}

/// An invocation goes where its subcommand says, and runs a replica without
/// one.
pub proof fn an_invocation_goes_where_it_says(cli: Cli, r: Dispatch)
    requires
        call_ensures(Cli::dispatch, (cli,), r),
    ensures
        r is Run <==> cli.command is None,
        r is Init <==> (cli.command matches Some(Command::Init(_))),
        r is Admin <==> (cli.command matches Some(Command::Admin(_))),
        r matches Dispatch::Init(a) ==> cli.command == Some(Command::Init(a)),
        r matches Dispatch::Admin(a) ==> cli.command == Some(Command::Admin(a)),
        r matches Dispatch::Run(a) ==> a.config == cli.config->0,
{
}

} // verus!
