//! Reading an invocation.

use vstd::prelude::*;
use vstd::string::*;

use crate::cli::scan;
use crate::cli::scan::{read_level, Given};
use crate::cli::{AdminArgs, AdminVerb, Cli, Command, InitArgs, RotateCaVerb};
use crate::text;
use crate::time;
use crate::time::{is_within_reach, Duration};

verus! {

// ---------------------------------------------------------------------------
// What an invocation says
// ---------------------------------------------------------------------------

/// What an invocation says.
#[verifier::ext_equal]
pub struct CliView {
    pub command: Option<CommandView>,
    pub config: Option<Seq<char>>,
}

#[verifier::ext_equal]
pub enum CommandView {
    Init {
        config: Seq<char>,
        policy: Option<Seq<char>>,
        operator_csr: Option<Seq<char>>,
        operator_cn: Option<Seq<char>>,
        out_dir: Option<Seq<char>>,
    },
    Admin { config: Seq<char>, target: Option<Seq<char>>, verb: VerbView },
}

#[verifier::ext_equal]
pub enum VerbView {
    AddLearner { node_id: u64, addr: Seq<char> },
    Promote { node_id: u64, wait: nat },
    ReplaceVoter { old: u64, new: u64 },
    Remove { node_id: u64 },
    SetAddress { node_id: u64, addr: Seq<char> },
    Status { json: bool },
    LocalStatus { json: bool },
    IssueOperatorCert {
        operator_csr: Option<Seq<char>>,
        operator_cn: Option<Seq<char>>,
        out_dir: Option<Seq<char>>,
    },
    RotateCa { verb: RotateCaVerb },
}

pub open spec fn opt_view(s: Option<String>) -> Option<Seq<char>> {
    match s {
        Some(s) => Some(s@),
        None => None,
    }
}

impl View for AdminVerb {
    type V = VerbView;

    open spec fn view(&self) -> VerbView {
        match *self {
            AdminVerb::AddLearner { node_id, addr } => VerbView::AddLearner { node_id, addr: addr@ },
            AdminVerb::Promote { node_id, wait } => VerbView::Promote { node_id, wait: wait@ },
            AdminVerb::ReplaceVoter { old, new } => VerbView::ReplaceVoter { old, new },
            AdminVerb::Remove { node_id } => VerbView::Remove { node_id },
            AdminVerb::SetAddress { node_id, addr } => VerbView::SetAddress { node_id, addr: addr@ },
            AdminVerb::Status { json } => VerbView::Status { json },
            AdminVerb::LocalStatus { json } => VerbView::LocalStatus { json },
            AdminVerb::IssueOperatorCert { operator_csr, operator_cn, out_dir } =>
            VerbView::IssueOperatorCert {
                operator_csr: opt_view(operator_csr),
                operator_cn: opt_view(operator_cn),
                out_dir: opt_view(out_dir),
            },
            AdminVerb::RotateCa { verb } => VerbView::RotateCa { verb },
        }
    }
}

impl View for Command {
    type V = CommandView;

    open spec fn view(&self) -> CommandView {
        match *self {
            Command::Init(a) => CommandView::Init {
                config: a.config@,
                policy: opt_view(a.policy),
                operator_csr: opt_view(a.operator_csr),
                operator_cn: opt_view(a.operator_cn),
                out_dir: opt_view(a.out_dir),
            },
            Command::Admin(a) => CommandView::Admin {
                config: a.config@,
                target: opt_view(a.target),
                verb: a.verb@,
            },
        }
    }
}

impl View for Cli {
    type V = CliView;

    open spec fn view(&self) -> CliView {
        CliView {
            command: match self.command {
                Some(c) => Some(c@),
                None => None,
            },
            config: opt_view(self.config),
        }
    }
}

// ---------------------------------------------------------------------------
// Values
// ---------------------------------------------------------------------------

/// Whether an optional path is absent or not empty.
pub open spec fn sound_path(v: Option<Seq<char>>) -> bool {
    v matches Some(p) ==> p.len() > 0
}

/// The wait an operator writes, if it is one and within the parser's reach.
pub open spec fn wait_of(raw: Seq<char>) -> Option<nat> {
    if time::within_reach(raw) {
        match time::humantime_parsed(raw) {
            Ok(p) => Some((p.0 * time::SECOND + p.1) as nat),
            Err(_) => None,
        }
    } else {
        None
    }
}

/// The wait of a promotion: sixty seconds when none is written.
pub open spec fn promotion_wait(raw: Option<Seq<char>>) -> Option<nat> {
    match raw {
        Some(raw) => wait_of(raw),
        None => Some(60 * time::SECOND as nat),
    }
}

fn wait(raw: &Option<String>) -> (r: Option<Duration>)
    ensures
        r is Some <==> promotion_wait(opt_view(*raw)) is Some,
        r matches Some(d) ==> promotion_wait(opt_view(*raw)) == Some(d@),
{
    match raw {
        None => Some(Duration::from_secs(60)),
        Some(raw) => {
            if is_within_reach(raw.as_str()) {
                match time::parse_duration(raw.as_str()) {
                    Ok(d) => Some(d),
                    Err(_) => None,
                }
            } else {
                None
            }
        },
    }
}

/// The number a value writes, if it is there.
pub open spec fn number_in(v: Option<Seq<char>>) -> Option<u64> {
    match v {
        Some(s) => text::number_of(s),
        None => None,
    }
}

fn number(v: &Option<String>) -> (r: Option<u64>)
    ensures
        r == number_in(opt_view(*v)),
{
    match v {
        Some(s) => text::number(s.as_str()),
        None => None,
    }
}

fn path_is_sound(v: &Option<String>) -> (r: bool)
    ensures
        r == sound_path(opt_view(*v)),
{
    match v {
        Some(p) => !p.as_str().is_empty(),
        None => true,
    }
}

fn copy(v: &Option<String>) -> (r: Option<String>)
    ensures
        opt_view(r) == opt_view(*v),
{
    match v {
        Some(s) => Some(s.clone()),
        None => None,
    }
}

// ---------------------------------------------------------------------------
// The verbs
// ---------------------------------------------------------------------------

/// What a level with these options and no subcommand was given.
pub open spec fn leaf(
    valued: Seq<Seq<char>>,
    flags: Seq<Seq<char>>,
    tokens: Seq<Seq<char>>,
) -> Option<scan::GivenView> {
    match scan::level(valued, flags, tokens) {
        Some(g) => if g.rest.len() == 0 {
            Some(g)
        } else {
            None
        },
        None => None,
    }
}

fn read_leaf(
    args: &Vec<String>,
    from: usize,
    valued: &Vec<&'static str>,
    flags: &Vec<&'static str>,
) -> (r: Option<Given>)
    requires
        from <= args@.len(),
    ensures
        ({
            let view = leaf(
                scan::names(valued@),
                scan::names(flags@),
                scan::tail(args@, from as int),
            );
            &&& r is Some <==> view is Some
            &&& r matches Some(g) ==> {
                &&& scan::value_views(g.values@) == view->0.values
                &&& g.flags@ == view->0.flags
                &&& g.values@.len() == valued@.len()
                &&& g.flags@.len() == flags@.len()
                &&& forall|i: int|
                    0 <= i < g.values@.len() ==> opt_view(#[trigger] g.values@[i])
                        == view->0.values[i]
            }
        }),
{
    match read_level(args, from, valued, flags) {
        Some(g) => {
            proof {
                let view = scan::level(
                    scan::names(valued@),
                    scan::names(flags@),
                    scan::tail(args@, from as int),
                )->0;
                assert(view.rest.len() == args@.len() - g.rest);
                assert forall|i: int| 0 <= i < g.values@.len() implies opt_view(
                    #[trigger] g.values@[i],
                ) == view.values[i] by {
                    assert(scan::value_views(g.values@)[i] == opt_view(g.values@[i]));
                }
            }
            if g.rest == args.len() {
                Some(g)
            } else {
                None
            }
        },
        None => None,
    }
}

/// Read what follows `rotate-ca`.
pub open spec fn rotate_of(tokens: Seq<Seq<char>>) -> Option<RotateCaVerb> {
    match scan::level(seq![], seq![], tokens) {
        Some(g) => if g.rest.len() == 0 {
            None
        } else {
            let rest = g.rest.subrange(1, g.rest.len() as int);
            if g.rest[0] == "begin"@ {
                match leaf(seq![], seq![], rest) {
                    Some(_) => Some(RotateCaVerb::Begin),
                    None => None,
                }
            } else if g.rest[0] == "status"@ {
                match leaf(seq![], seq!["json"@], rest) {
                    Some(g) => Some(RotateCaVerb::Status { json: g.flags[0] }),
                    None => None,
                }
            } else if g.rest[0] == "complete"@ {
                match leaf(seq![], seq!["force"@], rest) {
                    Some(g) => Some(RotateCaVerb::Complete { force: g.flags[0] }),
                    None => None,
                }
            } else {
                None
            }
        },
        None => None,
    }
}

proof fn no_names(table: Seq<&'static str>)
    requires
        table.len() == 0,
    ensures
        scan::names(table) =~= seq![],
{
}

proof fn one_name(table: Seq<&'static str>, a: Seq<char>)
    requires
        table.len() == 1,
        table[0]@ == a,
    ensures
        scan::names(table) =~= seq![a],
{
}

proof fn two_names(table: Seq<&'static str>, a: Seq<char>, b: Seq<char>)
    requires
        table.len() == 2,
        table[0]@ == a,
        table[1]@ == b,
    ensures
        scan::names(table) =~= seq![a, b],
{
}

/// The first token of what is left, and what follows it.
proof fn split_tail(args: Seq<String>, at: int)
    requires
        0 <= at < args.len(),
    ensures
        scan::tail(args, at).len() == args.len() - at,
        scan::tail(args, at)[0] == args[at]@,
        scan::tail(args, at).subrange(1, args.len() - at) =~= scan::tail(args, at + 1),
{
}

fn read_rotate(args: &Vec<String>, from: usize) -> (r: Option<RotateCaVerb>)
    requires
        from <= args@.len(),
    ensures
        r == rotate_of(scan::tail(args@, from as int)),
{
    let none: Vec<&'static str> = Vec::new();
    proof {
        no_names(none@);
    }
    let g = match read_level(args, from, &none, &none) {
        Some(g) => g,
        None => return None,
    };
    assert(scan::tail(args@, g.rest as int).len() == args@.len() - g.rest);
    if g.rest == args.len() {
        return None;
    }
    proof {
        split_tail(args@, g.rest as int);
    }
    let word = args[g.rest].as_str();
    let from: usize = g.rest + 1;
    if text::same(word, "begin") {
        return match read_leaf(args, from, &none, &none) {
            Some(_) => Some(RotateCaVerb::Begin),
            None => None,
        };
    }
    if text::same(word, "status") {
        let flags: Vec<&'static str> = vec!["json"];
        proof {
            one_name(flags@, "json"@);
        }
        return match read_leaf(args, from, &none, &flags) {
            Some(g) => Some(RotateCaVerb::Status { json: g.flags[0] }),
            None => None,
        };
    }
    if text::same(word, "complete") {
        let flags: Vec<&'static str> = vec!["force"];
        proof {
            one_name(flags@, "force"@);
        }
        return match read_leaf(args, from, &none, &flags) {
            Some(g) => Some(RotateCaVerb::Complete { force: g.flags[0] }),
            None => None,
        };
    }
    None
}

/// A verb that takes a node and an address.
pub open spec fn node_and_address(tokens: Seq<Seq<char>>) -> Option<(u64, Seq<char>)> {
    match leaf(seq!["node-id"@, "addr"@], seq![], tokens) {
        Some(g) => match (number_in(g.values[0]), g.values[1]) {
            (Some(node), Some(addr)) => Some((node, addr)),
            _ => None,
        },
        None => None,
    }
}

fn read_node_and_address(args: &Vec<String>, from: usize) -> (r: Option<(u64, String)>)
    requires
        from <= args@.len(),
    ensures
        ({
            let view = node_and_address(scan::tail(args@, from as int));
            &&& r is Some <==> view is Some
            &&& r matches Some(p) ==> view == Some((p.0, p.1@))
        }),
{
    let none: Vec<&'static str> = Vec::new();
    let valued: Vec<&'static str> = vec!["node-id", "addr"];
    proof {
        no_names(none@);
        two_names(valued@, "node-id"@, "addr"@);
    }
    let g = match read_leaf(args, from, &valued, &none) {
        Some(g) => g,
        None => return None,
    };
    let node = number(&g.values[0]);
    let addr = copy(&g.values[1]);
    match (node, addr) {
        (Some(node), Some(addr)) => Some((node, addr)),
        _ => None,
    }
}

/// A verb that takes `--json` and nothing else.
pub open spec fn json_flag(tokens: Seq<Seq<char>>) -> Option<bool> {
    match leaf(seq![], seq!["json"@], tokens) {
        Some(g) => Some(g.flags[0]),
        None => None,
    }
}

fn read_json_flag(args: &Vec<String>, from: usize) -> (r: Option<bool>)
    requires
        from <= args@.len(),
    ensures
        r == json_flag(scan::tail(args@, from as int)),
{
    let none: Vec<&'static str> = Vec::new();
    let flags: Vec<&'static str> = vec!["json"];
    proof {
        no_names(none@);
        one_name(flags@, "json"@);
    }
    match read_leaf(args, from, &none, &flags) {
        Some(g) => Some(g.flags[0]),
        None => None,
    }
}

/// Read what follows a verb's name.
pub open spec fn verb_of(word: Seq<char>, tokens: Seq<Seq<char>>) -> Option<VerbView> {
    if word == "add-learner"@ {
        match node_and_address(tokens) {
            Some(p) => Some(VerbView::AddLearner { node_id: p.0, addr: p.1 }),
            None => None,
        }
    } else if word == "set-address"@ {
        match node_and_address(tokens) {
            Some(p) => Some(VerbView::SetAddress { node_id: p.0, addr: p.1 }),
            None => None,
        }
    } else if word == "promote"@ {
        match leaf(seq!["node-id"@, "wait"@], seq![], tokens) {
            Some(g) => match (number_in(g.values[0]), promotion_wait(g.values[1])) {
                (Some(node_id), Some(wait)) => Some(VerbView::Promote { node_id, wait }),
                _ => None,
            },
            None => None,
        }
    } else if word == "replace-voter"@ {
        match leaf(seq!["old"@, "new"@], seq![], tokens) {
            Some(g) => match (number_in(g.values[0]), number_in(g.values[1])) {
                (Some(old), Some(new)) => Some(VerbView::ReplaceVoter { old, new }),
                _ => None,
            },
            None => None,
        }
    } else if word == "remove"@ {
        match leaf(seq!["node-id"@], seq![], tokens) {
            Some(g) => match number_in(g.values[0]) {
                Some(node_id) => Some(VerbView::Remove { node_id }),
                None => None,
            },
            None => None,
        }
    } else if word == "status"@ {
        match json_flag(tokens) {
            Some(json) => Some(VerbView::Status { json }),
            None => None,
        }
    } else if word == "local-status"@ {
        match json_flag(tokens) {
            Some(json) => Some(VerbView::LocalStatus { json }),
            None => None,
        }
    } else if word == "issue-operator-cert"@ {
        match leaf(seq!["operator-csr"@, "operator-cn"@, "out-dir"@], seq![], tokens) {
            Some(g) => if sound_path(g.values[0]) && sound_path(g.values[2]) {
                Some(
                    VerbView::IssueOperatorCert {
                        operator_csr: g.values[0],
                        operator_cn: g.values[1],
                        out_dir: g.values[2],
                    },
                )
            } else {
                None
            },
            None => None,
        }
    } else if word == "rotate-ca"@ {
        match rotate_of(tokens) {
            Some(verb) => Some(VerbView::RotateCa { verb }),
            None => None,
        }
    } else {
        None
    }
}

fn read_verb(args: &Vec<String>, at: usize) -> (r: Option<AdminVerb>)
    requires
        at < args@.len(),
    ensures
        ({
            let view = verb_of(args@[at as int]@, scan::tail(args@, at + 1));
            &&& r is Some <==> view is Some
            &&& r matches Some(v) ==> view == Some(v@)
        }),
{
    assert(at < args.len());
    let word = args[at].as_str();
    let from: usize = at + 1;
    let none: Vec<&'static str> = Vec::new();
    proof {
        no_names(none@);
    }
    if text::same(word, "add-learner") {
        return match read_node_and_address(args, from) {
            Some((node_id, addr)) => Some(AdminVerb::AddLearner { node_id, addr }),
            None => None,
        };
    }
    if text::same(word, "set-address") {
        return match read_node_and_address(args, from) {
            Some((node_id, addr)) => Some(AdminVerb::SetAddress { node_id, addr }),
            None => None,
        };
    }
    if text::same(word, "promote") {
        let valued: Vec<&'static str> = vec!["node-id", "wait"];
        proof {
            two_names(valued@, "node-id"@, "wait"@);
        }
        let g = match read_leaf(args, from, &valued, &none) {
            Some(g) => g,
            None => return None,
        };
        let node = number(&g.values[0]);
        let wait = wait(&g.values[1]);
        return match (node, wait) {
            (Some(node_id), Some(wait)) => Some(AdminVerb::Promote { node_id, wait }),
            _ => None,
        };
    }
    if text::same(word, "replace-voter") {
        let valued: Vec<&'static str> = vec!["old", "new"];
        proof {
            two_names(valued@, "old"@, "new"@);
        }
        let g = match read_leaf(args, from, &valued, &none) {
            Some(g) => g,
            None => return None,
        };
        let old_node = number(&g.values[0]);
        let new_node = number(&g.values[1]);
        return match (old_node, new_node) {
            (Some(o), Some(n)) => Some(AdminVerb::ReplaceVoter { old: o, new: n }),
            _ => None,
        };
    }
    if text::same(word, "remove") {
        let valued: Vec<&'static str> = vec!["node-id"];
        proof {
            one_name(valued@, "node-id"@);
        }
        let g = match read_leaf(args, from, &valued, &none) {
            Some(g) => g,
            None => return None,
        };
        return match number(&g.values[0]) {
            Some(node_id) => Some(AdminVerb::Remove { node_id }),
            None => None,
        };
    }
    if text::same(word, "status") {
        return match read_json_flag(args, from) {
            Some(json) => Some(AdminVerb::Status { json }),
            None => None,
        };
    }
    if text::same(word, "local-status") {
        return match read_json_flag(args, from) {
            Some(json) => Some(AdminVerb::LocalStatus { json }),
            None => None,
        };
    }
    if text::same(word, "issue-operator-cert") {
        let valued: Vec<&'static str> = vec!["operator-csr", "operator-cn", "out-dir"];
        assert(scan::names(valued@) =~= seq!["operator-csr"@, "operator-cn"@, "out-dir"@]);
        let g = match read_leaf(args, from, &valued, &none) {
            Some(g) => g,
            None => return None,
        };
        if !path_is_sound(&g.values[0]) || !path_is_sound(&g.values[2]) {
            return None;
        }
        return Some(
            AdminVerb::IssueOperatorCert {
                operator_csr: copy(&g.values[0]),
                operator_cn: copy(&g.values[1]),
                out_dir: copy(&g.values[2]),
            },
        );
    }
    if text::same(word, "rotate-ca") {
        return match read_rotate(args, from) {
            Some(verb) => Some(AdminVerb::RotateCa { verb }),
            None => None,
        };
    }
    None
}

// ---------------------------------------------------------------------------
// The invocation
// ---------------------------------------------------------------------------

/// Read what follows `init`.
pub open spec fn init_of(tokens: Seq<Seq<char>>) -> Option<CommandView> {
    match leaf(
        seq!["config"@, "policy"@, "operator-csr"@, "operator-cn"@, "out-dir"@],
        seq![],
        tokens,
    ) {
        Some(g) => if g.values[0] is Some && sound_path(g.values[0]) && sound_path(g.values[1])
            && sound_path(g.values[2]) && sound_path(g.values[4]) {
            Some(
                CommandView::Init {
                    config: g.values[0]->0,
                    policy: g.values[1],
                    operator_csr: g.values[2],
                    operator_cn: g.values[3],
                    out_dir: g.values[4],
                },
            )
        } else {
            None
        },
        None => None,
    }
}

/// Read what follows `admin`.
pub open spec fn admin_of(tokens: Seq<Seq<char>>) -> Option<CommandView> {
    match scan::level(seq!["config"@, "target"@], seq![], tokens) {
        Some(g) => if g.values[0] is Some && sound_path(g.values[0]) && g.rest.len() > 0 {
            match verb_of(g.rest[0], g.rest.subrange(1, g.rest.len() as int)) {
                Some(verb) => Some(
                    CommandView::Admin { config: g.values[0]->0, target: g.values[1], verb },
                ),
                None => None,
            }
        } else {
            None
        },
        None => None,
    }
}

/// Read an invocation, the program's name left out. A subcommand takes the
/// place of the run's own arguments, and the two never mix.
pub open spec fn cli_of(tokens: Seq<Seq<char>>) -> Option<CliView> {
    if tokens.len() > 0 && tokens[0] == "init"@ {
        match init_of(tokens.subrange(1, tokens.len() as int)) {
            Some(c) => Some(CliView { command: Some(c), config: None }),
            None => None,
        }
    } else if tokens.len() > 0 && tokens[0] == "admin"@ {
        match admin_of(tokens.subrange(1, tokens.len() as int)) {
            Some(c) => Some(CliView { command: Some(c), config: None }),
            None => None,
        }
    } else {
        match leaf(seq!["config"@], seq![], tokens) {
            Some(g) => if g.values[0] is Some && sound_path(g.values[0]) {
                Some(CliView { command: None, config: g.values[0] })
            } else {
                None
            },
            None => None,
        }
    }
}

fn read_init(args: &Vec<String>, from: usize) -> (r: Option<Command>)
    requires
        from <= args@.len(),
    ensures
        ({
            let view = init_of(scan::tail(args@, from as int));
            &&& r is Some <==> view is Some
            &&& r matches Some(c) ==> view == Some(c@)
        }),
{
    let none: Vec<&'static str> = Vec::new();
    let valued: Vec<&'static str> = vec![
        "config",
        "policy",
        "operator-csr",
        "operator-cn",
        "out-dir",
    ];
    proof {
        no_names(none@);
        assert(scan::names(valued@) =~= seq![
            "config"@,
            "policy"@,
            "operator-csr"@,
            "operator-cn"@,
            "out-dir"@,
        ]);
    }
    let g = match read_leaf(args, from, &valued, &none) {
        Some(g) => g,
        None => return None,
    };
    if !path_is_sound(&g.values[0]) || !path_is_sound(&g.values[1]) || !path_is_sound(&g.values[2])
        || !path_is_sound(&g.values[4]) {
        return None;
    }
    match copy(&g.values[0]) {
        Some(config) => Some(
            Command::Init(
                InitArgs {
                    config,
                    policy: copy(&g.values[1]),
                    operator_csr: copy(&g.values[2]),
                    operator_cn: copy(&g.values[3]),
                    out_dir: copy(&g.values[4]),
                },
            ),
        ),
        None => None,
    }
}

fn read_admin(args: &Vec<String>, from: usize) -> (r: Option<Command>)
    requires
        from <= args@.len(),
    ensures
        ({
            let view = admin_of(scan::tail(args@, from as int));
            &&& r is Some <==> view is Some
            &&& r matches Some(c) ==> view == Some(c@)
        }),
{
    let none: Vec<&'static str> = Vec::new();
    let valued: Vec<&'static str> = vec!["config", "target"];
    proof {
        no_names(none@);
        two_names(valued@, "config"@, "target"@);
    }
    let g = match read_level(args, from, &valued, &none) {
        Some(g) => g,
        None => return None,
    };
    assert(scan::tail(args@, g.rest as int).len() == args@.len() - g.rest);
    assert(scan::value_views(g.values@)[0] == opt_view(g.values@[0]));
    assert(scan::value_views(g.values@)[1] == opt_view(g.values@[1]));
    if !path_is_sound(&g.values[0]) || g.rest == args.len() {
        return None;
    }
    proof {
        split_tail(args@, g.rest as int);
    }
    let config = match copy(&g.values[0]) {
        Some(config) => config,
        None => return None,
    };
    match read_verb(args, g.rest) {
        Some(verb) => Some(
            Command::Admin(AdminArgs { config, target: copy(&g.values[1]), verb }),
        ),
        None => None,
    }
}

fn read_cli(args: &Vec<String>, from: usize) -> (r: Option<Cli>)
    requires
        from <= args@.len(),
    ensures
        ({
            let view = cli_of(scan::tail(args@, from as int));
            &&& r is Some <==> view is Some
            &&& r matches Some(c) ==> view == Some(c@)
        }),
{
    assert(scan::tail(args@, from as int).len() == args@.len() - from);
    if from < args.len() {
        proof {
            split_tail(args@, from as int);
        }
        if text::same(args[from].as_str(), "init") {
            return match read_init(args, from + 1) {
                Some(c) => Some(Cli { command: Some(c), config: None }),
                None => None,
            };
        }
        if text::same(args[from].as_str(), "admin") {
            return match read_admin(args, from + 1) {
                Some(c) => Some(Cli { command: Some(c), config: None }),
                None => None,
            };
        }
    }
    let none: Vec<&'static str> = Vec::new();
    let valued: Vec<&'static str> = vec!["config"];
    proof {
        no_names(none@);
        one_name(valued@, "config"@);
    }
    let g = match read_leaf(args, from, &valued, &none) {
        Some(g) => g,
        None => return None,
    };
    if !path_is_sound(&g.values[0]) {
        return None;
    }
    match copy(&g.values[0]) {
        Some(config) => Some(Cli { command: None, config: Some(config) }),
        None => None,
    }
}

/// What an unreadable invocation is answered.
pub const USAGE: &'static str =
    "usage: coordinator --config <CONFIG> | init --config <CONFIG> [OPTIONS] | admin --config <CONFIG> [--target <TARGET>] <VERB>";

impl Cli {
    /// Read an invocation, the program's name first.
    pub fn try_parse_from(args: &Vec<String>) -> (r: Result<Cli, String>)
        ensures
            ({
                let from = if args@.len() == 0 {
                    0int
                } else {
                    1int
                };
                match cli_of(scan::tail(args@, from)) {
                    Some(view) => r matches Ok(c) && c@ == view,
                    None => r matches Err(e) && e@ == USAGE@,
                }
            }),
    {
        let from: usize = if args.len() == 0 {
            0
        } else {
            1
        };
        match read_cli(args, from) {
            Some(c) => Ok(c),
            None => Err(USAGE.to_owned()),
        }
    }
}

/// A run that is not a subcommand always names its configuration, so its
/// arguments can be taken.
pub proof fn a_run_names_its_config(tokens: Seq<Seq<char>>)
    requires
        cli_of(tokens) is Some,
        cli_of(tokens)->0.command is None,
    ensures
        cli_of(tokens)->0.config is Some,
        cli_of(tokens)->0.config->0.len() > 0,
{
}

// ---------------------------------------------------------------------------
// What an invocation comes to
// ---------------------------------------------------------------------------

/// An invocation forms, administers or runs by its first word, and a run
/// always names its configuration.
pub proof fn the_first_word_decides(args: Vec<String>, r: Result<Cli, String>)
    requires
        call_ensures(Cli::try_parse_from, (&args,), r),
    ensures
        r is Ok ==> ((r->Ok_0.command matches Some(Command::Init(_))) <==> args@.len() > 1
            && args@[1]@ == "init"@),
        r is Ok ==> ((r->Ok_0.command matches Some(Command::Admin(_))) <==> args@.len() > 1
            && args@[1]@ == "admin"@),
        r is Ok ==> (r->Ok_0.command is None <==> r->Ok_0.config is Some),
        r is Ok && r->Ok_0.command is None ==> r->Ok_0.config->0@.len() > 0,
        args@.len() <= 1 ==> r is Err,
        r is Ok ==> (r->Ok_0.command matches Some(Command::Init(a)) ==> a.config@.len() > 0),
        r is Ok ==> (r->Ok_0.command matches Some(Command::Admin(a)) ==> a.config@.len() > 0),
{
    reveal_strlit("init");
    reveal_strlit("admin");
    if args@.len() > 0 {
        assert(scan::tail(args@, 1).len() == args@.len() - 1);
        if args@.len() > 1 {
            split_tail(args@, 1);
        }
    }
    if r is Ok {
        let view = r->Ok_0@;
        if let Some(c) = r->Ok_0.command {
            assert(view.command == Some(c@));
        }
    }
    if args@.len() <= 1 {
        let from = if args@.len() == 0 {
            0int
        } else {
            1int
        };
        assert(scan::tail(args@, from).len() == 0);
    }
}

/// Each verb has its own word, and no other word makes it.
pub proof fn each_verb_has_its_word(word: Seq<char>, tokens: Seq<Seq<char>>)
    requires
        verb_of(word, tokens) is Some,
    ensures
        verb_of(word, tokens)->0 is AddLearner <==> word == "add-learner"@,
        verb_of(word, tokens)->0 is SetAddress <==> word == "set-address"@,
        verb_of(word, tokens)->0 is Promote <==> word == "promote"@,
        verb_of(word, tokens)->0 is ReplaceVoter <==> word == "replace-voter"@,
        verb_of(word, tokens)->0 is Remove <==> word == "remove"@,
        verb_of(word, tokens)->0 is Status <==> word == "status"@,
        verb_of(word, tokens)->0 is LocalStatus <==> word == "local-status"@,
        verb_of(word, tokens)->0 is IssueOperatorCert <==> word == "issue-operator-cert"@,
        verb_of(word, tokens)->0 is RotateCa <==> word == "rotate-ca"@,
{
    reveal_strlit("add-learner");
    reveal_strlit("set-address");
    reveal_strlit("promote");
    reveal_strlit("replace-voter");
    reveal_strlit("remove");
    reveal_strlit("status");
    reveal_strlit("local-status");
    reveal_strlit("issue-operator-cert");
    reveal_strlit("rotate-ca");
    assert("add-learner"@.len() == 11 && "set-address"@.len() == 11 && "add-learner"@[0] == 'a'
        && "set-address"@[0] == 's');
    assert("promote"@.len() == 7 && "replace-voter"@.len() == 13 && "remove"@.len() == 6
        && "status"@.len() == 6 && "remove"@[0] == 'r' && "status"@[0] == 's');
    assert("local-status"@.len() == 12 && "issue-operator-cert"@.len() == 19
        && "rotate-ca"@.len() == 9);
}

/// A verb that names a node and an address takes both, and is read exactly
/// where the node is a number and the address is there.
pub proof fn a_seat_is_named_by_node_and_address(tokens: Seq<Seq<char>>, g: scan::GivenView)
    requires
        scan::level(seq!["node-id"@, "addr"@], seq![], tokens) == Some(g),
        g.rest.len() == 0,
    ensures
        ({
            let named = g.values[0] is Some && text::number_of(g.values[0]->0) is Some
                && g.values[1] is Some;
            &&& verb_of("add-learner"@, tokens) is Some <==> named
            &&& verb_of("set-address"@, tokens) is Some <==> named
            &&& named ==> verb_of("add-learner"@, tokens) == Some(
                (VerbView::AddLearner {
                    node_id: text::number_of(g.values[0]->0)->0,
                    addr: g.values[1]->0,
                }),
            )
            &&& named ==> verb_of("set-address"@, tokens) == Some(
                (VerbView::SetAddress {
                    node_id: text::number_of(g.values[0]->0)->0,
                    addr: g.values[1]->0,
                }),
            )
        }),
{
    reveal_strlit("add-learner");
    reveal_strlit("set-address");
    assert("add-learner"@[0] == 'a' && "set-address"@[0] == 's');
}

/// A replacement takes the voter that leaves and the node that comes, each
/// from its own option, and whatever numbers they are.
pub proof fn a_replacement_names_both_nodes(tokens: Seq<Seq<char>>, g: scan::GivenView)
    requires
        scan::level(seq!["old"@, "new"@], seq![], tokens) == Some(g),
        g.rest.len() == 0,
    ensures
        ({
            let named = g.values[0] is Some && text::number_of(g.values[0]->0) is Some
                && g.values[1] is Some && text::number_of(g.values[1]->0) is Some;
            &&& verb_of("replace-voter"@, tokens) is Some <==> named
            &&& named ==> verb_of("replace-voter"@, tokens) == Some(
                (VerbView::ReplaceVoter {
                    old: text::number_of(g.values[0]->0)->0,
                    new: text::number_of(g.values[1]->0)->0,
                }),
            )
        }),
{
    the_words_differ();
}

/// A promotion names its node, and waits a minute unless it is told how long.
pub proof fn a_promotion_waits_a_minute_unless_told(tokens: Seq<Seq<char>>, g: scan::GivenView)
    requires
        scan::level(seq!["node-id"@, "wait"@], seq![], tokens) == Some(g),
        g.rest.len() == 0,
        g.values[0] is Some,
        text::number_of(g.values[0]->0) is Some,
    ensures
        g.values[1] is None ==> verb_of("promote"@, tokens) == Some(
            (VerbView::Promote {
                node_id: text::number_of(g.values[0]->0)->0,
                wait: 60_000_000_000,
            }),
        ),
        g.values[1] is Some && !time::within_reach(g.values[1]->0) ==> verb_of(
            "promote"@,
            tokens,
        ) is None,
        g.values[1] is Some && time::within_reach(g.values[1]->0) ==> (match time::humantime_parsed(
            g.values[1]->0,
        ) {
            Ok(p) => verb_of("promote"@, tokens) == Some(
                (VerbView::Promote {
                    node_id: text::number_of(g.values[0]->0)->0,
                    wait: (p.0 * 1_000_000_000 + p.1) as nat,
                }),
            ),
            Err(_) => verb_of("promote"@, tokens) is None,
        }),
{
    the_words_differ();
}

/// A removal names its node.
pub proof fn a_removal_names_its_node(tokens: Seq<Seq<char>>, g: scan::GivenView)
    requires
        scan::level(seq!["node-id"@], seq![], tokens) == Some(g),
        g.rest.len() == 0,
    ensures
        verb_of("remove"@, tokens) is Some <==> g.values[0] is Some && text::number_of(
            g.values[0]->0,
        ) is Some,
        verb_of("remove"@, tokens) is Some ==> verb_of("remove"@, tokens) == Some(
            (VerbView::Remove { node_id: text::number_of(g.values[0]->0)->0 }),
        ),
{
    the_words_differ();
}

/// The status verbs are always read, with or without their flag.
pub proof fn a_status_is_json_when_asked(tokens: Seq<Seq<char>>, g: scan::GivenView)
    requires
        scan::level(seq![], seq!["json"@], tokens) == Some(g),
        g.rest.len() == 0,
    ensures
        verb_of("status"@, tokens) == Some((VerbView::Status { json: g.flags[0] })),
        verb_of("local-status"@, tokens) == Some((VerbView::LocalStatus { json: g.flags[0] })),
{
    the_words_differ();
}

/// A formation is read with its own options, exactly where it names a
/// configuration and none of its paths is empty.
pub proof fn a_formation_names_its_config(tokens: Seq<Seq<char>>, g: scan::GivenView)
    requires
        scan::level(
            seq!["config"@, "policy"@, "operator-csr"@, "operator-cn"@, "out-dir"@],
            seq![],
            tokens,
        ) == Some(g),
        g.rest.len() == 0,
    ensures
        init_of(tokens) is Some <==> g.values[0] is Some && g.values[0]->0.len() > 0 && (g.values[1]
            is Some ==> g.values[1]->0.len() > 0) && (g.values[2] is Some ==> g.values[2]->0.len()
            > 0) && (g.values[4] is Some ==> g.values[4]->0.len() > 0),
        init_of(tokens) is Some ==> init_of(tokens) == Some(
            (CommandView::Init {
                config: g.values[0]->0,
                policy: g.values[1],
                operator_csr: g.values[2],
                operator_cn: g.values[3],
                out_dir: g.values[4],
            }),
        ),
{
}

/// An administration is read exactly where it names a configuration and a verb
/// that is read; the target is the one it names, if any.
pub proof fn an_administration_names_its_verb(tokens: Seq<Seq<char>>, g: scan::GivenView)
    requires
        scan::level(seq!["config"@, "target"@], seq![], tokens) == Some(g),
    ensures
        admin_of(tokens) is Some <==> g.values[0] is Some && g.values[0]->0.len() > 0
            && g.rest.len() > 0 && verb_of(g.rest[0], g.rest.subrange(1, g.rest.len() as int))
            is Some,
        admin_of(tokens) is Some ==> admin_of(tokens) == Some(
            (CommandView::Admin {
                config: g.values[0]->0,
                target: g.values[1],
                verb: verb_of(g.rest[0], g.rest.subrange(1, g.rest.len() as int))->0,
            }),
        ),
{
}

/// A run is read exactly where it names a configuration and nothing else.
pub proof fn a_run_takes_its_config_alone(tokens: Seq<Seq<char>>, g: scan::GivenView)
    requires
        tokens.len() > 0 ==> tokens[0] != "init"@ && tokens[0] != "admin"@,
        scan::level(seq!["config"@], seq![], tokens) == Some(g),
    ensures
        cli_of(tokens) is Some <==> g.rest.len() == 0 && g.values[0] is Some && g.values[0]->0.len()
            > 0,
        cli_of(tokens) is Some ==> cli_of(tokens)->0.config == g.values[0] && cli_of(
            tokens,
        )->0.command is None,
{
}

/// The moves of a re-root, by their words.
pub proof fn a_re_root_moves_as_told(word: Seq<char>, rest: Seq<Seq<char>>)
    requires
        word.len() < 2 || word[0] != '-',
        rotate_of(seq![word] + rest) is Some,
    ensures
        rotate_of(seq![word] + rest)->0 is Begin <==> word == "begin"@,
        rotate_of(seq![word] + rest)->0 is Status <==> word == "status"@,
        rotate_of(seq![word] + rest)->0 is Complete <==> word == "complete"@,
{
    reveal_strlit("begin");
    reveal_strlit("status");
    reveal_strlit("complete");
    assert("begin"@.len() == 5 && "status"@.len() == 6 && "complete"@.len() == 8);
    let line = seq![word] + rest;
    assert(line[0] == word);
}

proof fn the_words_differ()
    ensures
        "promote"@ != "add-learner"@ && "promote"@ != "set-address"@,
        "replace-voter"@ != "add-learner"@ && "replace-voter"@ != "set-address"@
            && "replace-voter"@ != "promote"@,
        "remove"@ != "add-learner"@ && "remove"@ != "set-address"@ && "remove"@ != "promote"@
            && "remove"@ != "replace-voter"@,
        "status"@ != "add-learner"@ && "status"@ != "set-address"@ && "status"@ != "promote"@
            && "status"@ != "replace-voter"@ && "status"@ != "remove"@,
        "local-status"@ != "add-learner"@ && "local-status"@ != "set-address"@ && "local-status"@
            != "promote"@ && "local-status"@ != "replace-voter"@ && "local-status"@ != "remove"@
            && "local-status"@ != "status"@,
{
    reveal_strlit("add-learner");
    reveal_strlit("set-address");
    reveal_strlit("promote");
    reveal_strlit("replace-voter");
    reveal_strlit("remove");
    reveal_strlit("status");
    reveal_strlit("local-status");
    assert("add-learner"@.len() == 11 && "set-address"@.len() == 11 && "promote"@.len() == 7
        && "replace-voter"@.len() == 13 && "remove"@.len() == 6 && "status"@.len() == 6
        && "local-status"@.len() == 12);
    assert("remove"@[0] == 'r' && "status"@[0] == 's');
}

} // verus!
