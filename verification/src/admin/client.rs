//! The caller's half of the admin surface: where a verb goes, how long it
//! waits, and what the operator reads.

use vstd::prelude::*;
use vstd::string::*;

use crate::admin::membership::{AddLearnerRequest, SetNodeAddressRequest};
use crate::admin::refusals;
use crate::admin::refusals::is_learner_behind;
use crate::admin::render;
use crate::admin::render::{render_status, render_status_json};
use crate::cli::AdminVerb;
use crate::config::BackendKind;
use crate::json;
use crate::status;
use crate::status::{has_marker, Status, StatusView, QUORUM_AT_RISK};
use crate::text;
use crate::text::decimal_text;
use crate::time;
use crate::time::{write_duration, Duration};
use crate::wire::{ClusterStatusResponse, ProbeClusterResponse, RaftMember};

verus! {

/// How a refusal reads to an operator: its code and its message.
pub open spec fn refusal_text(s: StatusView) -> Seq<char> {
    "admin RPC failed ("@ + s.code.name_of() + "): "@ + s.message
}

/// How a refusal reads to an operator.
pub fn status_to_error(s: &Status) -> (r: String)
    ensures
        r@ == refusal_text(s@),
{
    "admin RPC failed (".to_owned().concat(s.code().name()).concat("): ").concat(s.message())
}

// ---------------------------------------------------------------------------
// Asking the leader
// ---------------------------------------------------------------------------

/// The position of the first member with this identifier, or their number.
pub open spec fn member_at(members: Seq<RaftMember>, node: u64) -> int
    decreases members.len(),
{
    if members.len() == 0 || members[0].node_id == node {
        0
    } else {
        1 + member_at(members.subrange(1, members.len() as int), node)
    }
}

/// Where an answer warrants asking once more: at the leader a follower names,
/// when its own membership tells the leader's address. An answer with a
/// verdict is the leader's already.
pub open spec fn redial(s: ClusterStatusResponse) -> Option<Seq<char>> {
    if s.health is Some || s.leader_node_id is None || s.leader_node_id == Some(s.local_node_id)
        || s.membership is None {
        None
    } else {
        let members = s.membership->0.members@;
        let at = member_at(members, s.leader_node_id->0);
        if at < members.len() {
            Some(members[at].address@)
        } else {
            None
        }
    }
}

/// Where an answer warrants asking once more.
pub fn leader_redial_target(s: &ClusterStatusResponse) -> (r: Option<String>)
    ensures
        match r {
            Some(addr) => redial(*s) == Some(addr@),
            None => redial(*s) is None,
        },
{
    if s.health.is_some() {
        return None;
    }
    let leader = match s.leader_node_id {
        Some(leader) => leader,
        None => return None,
    };
    if leader == s.local_node_id {
        return None;
    }
    let members = match &s.membership {
        Some(m) => &m.members,
        None => return None,
    };
    let n: usize = members.len();
    let mut i: usize = 0;
    assert(members@.subrange(0, n as int) =~= members@);
    while i < n
        invariant
            n == members@.len(),
            i <= n,
            s.health is None,
            s.leader_node_id == Some(leader),
            leader != s.local_node_id,
            s.membership is Some,
            members@ == s.membership->0.members@,
            member_at(members@, leader) == i + member_at(
                members@.subrange(i as int, n as int),
                leader,
            ),
        decreases n - i,
    {
        let ghost rest = members@.subrange(i as int, n as int);
        assert(rest.subrange(1, rest.len() as int) =~= members@.subrange(i + 1, n as int));
        if members[i].node_id == leader {
            return Some(members[i].address.clone());
        }
        i = i + 1;
    }
    None
}

/// The answer to show: the leader's when it gave one, else the first, which is
/// still a true document with no verdict in it.
pub fn resolved_status(
    first: ClusterStatusResponse,
    leader: Option<Result<ClusterStatusResponse, String>>,
) -> (r: ClusterStatusResponse)
    ensures
        r == (match leader {
            Some(Ok(s)) => s,
            _ => first,
        }),
{
    match leader {
        Some(Ok(s)) => s,
        _ => first,
    }
}

/// Only a follower's answer is asked again, and never at the answering node
/// itself: whoever carries a verdict, or names itself, is taken at its word.
pub proof fn only_followers_are_asked_again(s: ClusterStatusResponse)
    ensures
        redial(s) is Some ==> s.health is None && s.leader_node_id is Some && s.leader_node_id
            != Some(s.local_node_id),
{
}

// ---------------------------------------------------------------------------
// Waiting for a promotion
// ---------------------------------------------------------------------------

/// What a promotion does after one attempt.
#[derive(Debug, Clone)]
pub enum PollStep {
    Done,
    /// Try again after the poll interval.
    Sleep,
    GiveUp(String),
}

/// Whether a refusal passes on its own: the learner still catches up, or has
/// not acknowledged a heartbeat yet.
pub open spec fn passes(s: StatusView) -> bool {
    refusals::reads_as_behind(s) || status::marked(s.message, QUORUM_AT_RISK@)
}

/// One attempt to promote `promote` ended, `waited` after the first one began.
/// A refusal that passes is retried while another poll fits the wait; any
/// other is final.
pub fn promote_voter(
    promote: u64,
    outcome: &Result<(), Status>,
    waited: &Duration,
    wait: &Duration,
    poll: &Duration,
) -> (r: PollStep)
    ensures
        match *outcome {
            Ok(_) => r is Done,
            Err(s) => if !passes(s@) {
                r matches PollStep::GiveUp(m) && m@ == refusal_text(s@)
            } else if waited@ + poll@ >= wait@ {
                r matches PollStep::GiveUp(m) && m@ == "learner "@ + text::decimal(promote as nat)
                    + " was not promotable within "@ + time::written(wait@) + ": "@ + s@.message
            } else {
                r is Sleep
            },
        },
{
    let s = match outcome {
        Ok(_) => return PollStep::Done,
        Err(s) => s,
    };
    if !is_learner_behind(s) && !has_marker(s.message(), QUORUM_AT_RISK) {
        return PollStep::GiveUp(status_to_error(s));
    }
    if waited.as_nanos() + poll.as_nanos() >= wait.as_nanos() {
        return PollStep::GiveUp(
            "learner ".to_owned().concat(decimal_text(promote).as_str()).concat(
                " was not promotable within ",
            ).concat(write_duration(wait).as_str()).concat(": ").concat(s.message()),
        );
    }
    PollStep::Sleep
}

// ---------------------------------------------------------------------------
// One invocation
// ---------------------------------------------------------------------------

/// Where a verb goes.
#[derive(Debug, Clone, Copy, PartialEq, Eq, Structural)]
pub enum Route {
    /// The daemon's local socket: being able to open it is the authority.
    LocalSocket,
    /// The admin surface of a coordinator.
    Network,
}

/// Whether a verb rides the local socket: what recovers or replaces the very
/// credential the network path would ask for, and what a daemon without a
/// cluster can still answer.
pub open spec fn local(verb: AdminVerb) -> bool {
    verb is IssueOperatorCert || verb is LocalStatus || verb is RotateCa
}

/// Where a verb goes.
pub fn route(verb: &AdminVerb) -> (r: Route)
    ensures
        r == (if local(*verb) {
            Route::LocalSocket
        } else {
            Route::Network
        }),
{
    match verb {
        AdminVerb::IssueOperatorCert { .. } => Route::LocalSocket,
        AdminVerb::LocalStatus { .. } => Route::LocalSocket,
        AdminVerb::RotateCa { .. } => Route::LocalSocket,
        _ => Route::Network,
    }
}

/// Whom to dial: the named target, else the first discovered candidate.
pub fn choose_target(target: &Option<String>, candidates: &Vec<String>, backend: BackendKind) -> (r:
    Result<String, String>)
    ensures
        match *target {
            Some(t) => r matches Ok(x) && x@ == t@,
            None => if candidates@.len() > 0 {
                r matches Ok(x) && x@ == candidates@[0]@
            } else {
                r matches Err(e) && e@ == "no --target given and the config's \""@
                    + backend.spelling() + "\" discovery backend "@
                    + "found no candidates; pass --target <host:port>"@
            },
        },
{
    if let Some(t) = target {
        return Ok(t.clone());
    }
    if candidates.len() > 0 {
        return Ok(candidates[0].clone());
    }
    Err(
        "no --target given and the config's \"".to_owned().concat(backend.as_str()).concat(
            "\" discovery backend ",
        ).concat("found no candidates; pass --target <host:port>"),
    )
}

/// What is wrong with a target's answer to the opening probe, if anything.
pub open spec fn probe_objection(
    target: Seq<char>,
    cluster_id: Seq<char>,
    probe: ProbeClusterResponse,
) -> Option<Seq<char>> {
    if probe.cluster_id@ != cluster_id {
        Some(
            target + " serves cluster "@ + text::debug_quoted(probe.cluster_id@)
                + ", this config names "@ + text::debug_quoted(cluster_id)
                + " — wrong target or wrong config"@,
        )
    } else if !probe.initialized {
        Some(
            target + " has not formed a cluster (it is parked or mid-formation); membership "@
                + "verbs are served only once the formation_complete marker exists (ADR 0037 §3)"@,
        )
    } else if probe.history_id@.len() != 16 {
        Some(
            target + " answered a malformed history id ("@ + text::decimal(probe.history_id@.len())
                + " bytes)"@,
        )
    } else {
        None
    }
}

/// The history a target is stamped for, learned before any verb: every
/// membership verb is cross-checked against it.
pub fn learn_history(target: &str, cluster_id: &str, probe: &ProbeClusterResponse) -> (r: Result<
    Vec<u8>,
    String,
>)
    ensures
        match probe_objection(target@, cluster_id@, *probe) {
            Some(text) => r matches Err(e) && e@ == text,
            None => r matches Ok(h) && h@ == probe.history_id@ && h@.len() == 16,
        },
{
    if !text::same(probe.cluster_id.as_str(), cluster_id) {
        return Err(
            target.to_owned().concat(" serves cluster ").concat(
                text::quoted(probe.cluster_id.as_str()).as_str(),
            ).concat(", this config names ").concat(text::quoted(cluster_id).as_str()).concat(
                " — wrong target or wrong config",
            ),
        );
    }
    if !probe.initialized {
        return Err(
            target.to_owned().concat(
                " has not formed a cluster (it is parked or mid-formation); membership ",
            ).concat(
                "verbs are served only once the formation_complete marker exists (ADR 0037 §3)",
            ),
        );
    }
    if probe.history_id.len() != 16 {
        let n: usize = probe.history_id.len();
        return Err(
            target.to_owned().concat(" answered a malformed history id (").concat(
                decimal_text(n as u64).as_str(),
            ).concat(" bytes)"),
        );
    }
    Ok(crate::wire::copy_bytes(&probe.history_id))
}

/// A request to a coordinator's admin surface.
#[derive(Debug, Clone)]
pub enum AdminCall {
    AddLearner(AddLearnerRequest),
    /// Retried while its refusal passes, for as long as `wait`.
    PromoteVoter { history_id: Vec<u8>, node_id: u64, wait: Duration },
    ReplaceVoter { history_id: Vec<u8>, old_node_id: u64, new_node_id: u64 },
    RemoveNode { history_id: Vec<u8>, node_id: u64 },
    SetNodeAddress(SetNodeAddressRequest),
    ClusterStatus { history_id: Vec<u8> },
}

/// Whether `call` is the request of a verb, cross-checked against `history`.
pub open spec fn carries_out(call: AdminCall, verb: AdminVerb, history: Seq<u8>) -> bool {
    match (verb, call) {
        (AdminVerb::AddLearner { node_id, addr }, AdminCall::AddLearner(q)) => {
            q.history_id@ == history && q.node_id == node_id && q.address@ == addr@
        },
        (
            AdminVerb::Promote { node_id, wait },
            AdminCall::PromoteVoter { history_id, node_id: promoted, wait: bound },
        ) => history_id@ == history && promoted == node_id && bound == wait,
        (
            AdminVerb::ReplaceVoter { old, new },
            AdminCall::ReplaceVoter { history_id, old_node_id, new_node_id },
        ) => history_id@ == history && old_node_id == old && new_node_id == new,
        (
            AdminVerb::Remove { node_id },
            AdminCall::RemoveNode { history_id, node_id: removed },
        ) => history_id@ == history && removed == node_id,
        (AdminVerb::SetAddress { node_id, addr }, AdminCall::SetNodeAddress(q)) => {
            q.history_id@ == history && q.node_id == node_id && q.address@ == addr@
        },
        (AdminVerb::Status { .. }, AdminCall::ClusterStatus { history_id }) => history_id@
            == history,
        _ => false,
    }
}

/// The request that a network verb makes of the target, after the opening
/// probe. Nothing is asked of a target that serves another cluster or none.
pub fn run_cli(verb: &AdminVerb, target: &str, cluster_id: &str, probe: &ProbeClusterResponse) -> (r:
    Result<AdminCall, String>)
    requires
        !local(*verb),
    ensures
        match probe_objection(target@, cluster_id@, *probe) {
            Some(text) => r matches Err(e) && e@ == text,
            None => r matches Ok(call) && carries_out(call, *verb, probe.history_id@),
        },
{
    let history_id = match learn_history(target, cluster_id, probe) {
        Ok(history_id) => history_id,
        Err(e) => {
            return Err(e);
        },
    };
    Ok(
        match verb {
            AdminVerb::AddLearner { node_id, addr } => AdminCall::AddLearner(
                AddLearnerRequest { history_id, node_id: *node_id, address: addr.clone() },
            ),
            AdminVerb::Promote { node_id, wait } => AdminCall::PromoteVoter {
                history_id,
                node_id: *node_id,
                wait: *wait,
            },
            AdminVerb::ReplaceVoter { old, new } => AdminCall::ReplaceVoter {
                history_id,
                old_node_id: *old,
                new_node_id: *new,
            },
            AdminVerb::Remove { node_id } => AdminCall::RemoveNode {
                history_id,
                node_id: *node_id,
            },
            AdminVerb::SetAddress { node_id, addr } => AdminCall::SetNodeAddress(
                SetNodeAddressRequest { history_id, node_id: *node_id, address: addr.clone() },
            ),
            _ => AdminCall::ClusterStatus { history_id },
        },
    )
}

/// What a verb that changed membership prints; nothing for the others, which
/// print a document.
pub open spec fn done_text(verb: AdminVerb) -> Option<Seq<char>> {
    match verb {
        AdminVerb::AddLearner { node_id, addr } => Some(
            "added node "@ + text::decimal(node_id as nat) + " as a learner ("@ + addr@ + ")"@,
        ),
        AdminVerb::Promote { node_id, .. } => Some(
            "promoted node "@ + text::decimal(node_id as nat) + " to voter"@,
        ),
        AdminVerb::ReplaceVoter { old, new } => Some(
            "replaced voter "@ + text::decimal(old as nat) + " with node "@ + text::decimal(
                new as nat,
            ),
        ),
        AdminVerb::Remove { node_id } => Some(
            "removed node "@ + text::decimal(node_id as nat) + " from membership"@,
        ),
        AdminVerb::SetAddress { node_id, addr } => Some(
            "node "@ + text::decimal(node_id as nat) + " now advertises "@ + addr@,
        ),
        _ => None,
    }
}

/// What a verb that changed membership prints.
pub fn done_line(verb: &AdminVerb) -> (r: Option<String>)
    ensures
        match r {
            Some(line) => done_text(*verb) == Some(line@),
            None => done_text(*verb) is None,
        },
{
    match verb {
        AdminVerb::AddLearner { node_id, addr } => Some(
            "added node ".to_owned().concat(decimal_text(*node_id).as_str()).concat(
                " as a learner (",
            ).concat(addr.as_str()).concat(")"),
        ),
        AdminVerb::Promote { node_id, .. } => Some(
            "promoted node ".to_owned().concat(decimal_text(*node_id).as_str()).concat(
                " to voter",
            ),
        ),
        AdminVerb::ReplaceVoter { old, new } => Some(
            "replaced voter ".to_owned().concat(decimal_text(*old).as_str()).concat(
                " with node ",
            ).concat(decimal_text(*new).as_str()),
        ),
        AdminVerb::Remove { node_id } => Some(
            "removed node ".to_owned().concat(decimal_text(*node_id).as_str()).concat(
                " from membership",
            ),
        ),
        AdminVerb::SetAddress { node_id, addr } => Some(
            "node ".to_owned().concat(decimal_text(*node_id).as_str()).concat(
                " now advertises ",
            ).concat(addr.as_str()),
        ),
        _ => None,
    }
}

/// What a network verb prints when it succeeded: one line, or the status
/// document in the form that was asked for.
pub open spec fn printed(verb: AdminVerb, status: ClusterStatusResponse) -> Seq<char> {
    match verb {
        AdminVerb::Status { json } => if json {
            json::json_pretty(render::status_doc(status)) + "\n"@
        } else {
            render::table(status)
        },
        _ => match done_text(verb) {
            Some(line) => line + "\n"@,
            None => seq![],
        },
    }
}

/// What a network verb prints when it succeeded. `status` is the answer of the
/// verb that asks for one.
pub fn output(verb: &AdminVerb, status: &Option<ClusterStatusResponse>) -> (r: String)
    requires
        verb is Status ==> *status is Some,
    ensures
        r@ == printed(*verb, status->0),
{
    if let AdminVerb::Status { json } = verb {
        if let Some(status) = status {
            return if *json {
                render_status_json(status).concat("\n")
            } else {
                render_status(status)
            };
        }
    }
    match done_line(verb) {
        Some(line) => line.concat("\n"),
        None => String::new(),
    }
}

// ---------------------------------------------------------------------------
// What an invocation comes to
// ---------------------------------------------------------------------------

proof fn member_at_is_first(members: Seq<RaftMember>, node: u64)
    ensures
        0 <= member_at(members, node) <= members.len(),
        member_at(members, node) < members.len() ==> members[member_at(members, node)].node_id
            == node,
        forall|j: int| 0 <= j < member_at(members, node) ==> (#[trigger] members[j]).node_id != node,
    decreases members.len(),
{
    if members.len() > 0 && members[0].node_id != node {
        let rest = members.subrange(1, members.len() as int);
        member_at_is_first(rest, node);
        assert forall|j: int| 0 <= j < member_at(members, node) implies (
        #[trigger] members[j]).node_id != node by {
            if j > 0 {
                assert(rest[j - 1] == members[j]);
            }
        }
    }
}

/// A question is asked again exactly when a follower answered without a
/// verdict and its own membership seats the other node it names as leader; and
/// it is asked at the address that seat carries.
pub proof fn a_follower_sends_on_to_its_leader(
    s: ClusterStatusResponse,
    at: int,
    r: Option<String>,
)
    requires
        call_ensures(leader_redial_target, (&s,), r),
    ensures
        r is Some <==> s.health is None && s.leader_node_id is Some && s.leader_node_id->0
            != s.local_node_id && s.membership is Some && exists|i: int|
            0 <= i < s.membership->0.members@.len() && (
            #[trigger] s.membership->0.members@[i]).node_id == s.leader_node_id->0,
        r is Some && 0 <= at < s.membership->0.members@.len() && s.membership->0.members@[at].node_id
            == s.leader_node_id->0 && (forall|j: int|
            0 <= j < at ==> (#[trigger] s.membership->0.members@[j]).node_id != s.leader_node_id->0)
            ==> r->0@ == s.membership->0.members@[at].address@,
{
    if s.membership is Some && s.leader_node_id is Some {
        let members = s.membership->0.members@;
        member_at_is_first(members, s.leader_node_id->0);
        let first = member_at(members, s.leader_node_id->0);
        if first < members.len() {
            assert(members[first].node_id == s.leader_node_id->0);
        }
    }
}

/// The leader's answer replaces the first; its silence or failure does not.
pub proof fn the_leaders_answer_is_shown(
    first: ClusterStatusResponse,
    leader: Option<Result<ClusterStatusResponse, String>>,
    r: ClusterStatusResponse,
)
    requires
        call_ensures(resolved_status, (first, leader), r),
    ensures
        leader matches Some(Ok(s)) ==> r == s,
        leader is None ==> r == first,
        leader matches Some(Err(_)) ==> r == first,
{
}

/// A promotion is polled exactly while its refusal passes on its own and one
/// more poll ends before the wait does; success ends it, and so does every
/// other refusal at once.
pub proof fn a_promotion_is_polled_while_it_can_pass(
    promote: u64,
    outcome: Result<(), Status>,
    waited: Duration,
    wait: Duration,
    poll: Duration,
    message: &str,
    behind: bool,
    risked: bool,
    r: PollStep,
)
    requires
        call_ensures(promote_voter, (promote, &outcome, &waited, &wait, &poll), r),
        outcome matches Err(s) ==> call_ensures(is_learner_behind, (&s,), behind) && message@
            == s@.message && call_ensures(has_marker, (message, QUORUM_AT_RISK), risked),
    ensures
        r is Done <==> outcome is Ok,
        outcome is Err ==> (r is Sleep <==> (behind || risked) && waited@ + poll@ < wait@),
        outcome is Err && !behind && !risked ==> r is GiveUp,
        outcome is Err && waited@ + poll@ >= wait@ ==> r is GiveUp,
{
}

/// The local socket takes the three verbs that recover or replace what the
/// network would ask for, and the network takes every other.
pub proof fn three_verbs_ride_the_local_socket(verb: AdminVerb, r: Route)
    requires
        call_ensures(route, (&verb,), r),
    ensures
        r == Route::LocalSocket <==> verb is IssueOperatorCert || verb is LocalStatus || verb
            is RotateCa,
        r == Route::Network <==> verb is AddLearner || verb is Promote || verb is ReplaceVoter
            || verb is Remove || verb is SetAddress || verb is Status,
{
}

/// A named target is dialled whatever discovery found; without one the first
/// candidate is, and without either nobody.
pub proof fn a_named_target_is_dialled(
    target: Option<String>,
    candidates: Vec<String>,
    backend: BackendKind,
    r: Result<String, String>,
)
    requires
        call_ensures(choose_target, (&target, &candidates, backend), r),
    ensures
        target is Some ==> (r matches Ok(x) && x@ == target->0@),
        target is None && candidates@.len() > 0 ==> (r matches Ok(x) && x@ == candidates@[0]@),
        r is Err <==> target is None && candidates@.len() == 0,
{
}

/// A target is taken exactly when it serves this cluster, formed, under a
/// sixteen-byte history; what is learned is that history.
pub proof fn only_this_clusters_history_is_learned(
    target: &str,
    cluster_id: &str,
    probe: ProbeClusterResponse,
    r: Result<Vec<u8>, String>,
)
    requires
        call_ensures(learn_history, (target, cluster_id, &probe), r),
    ensures
        r is Ok <==> probe.cluster_id@ == cluster_id@ && probe.initialized
            && probe.history_id@.len() == 16,
        r matches Ok(h) ==> h@ == probe.history_id@,
{
}

/// A verb asks a target for exactly what the operator named, stamped with the
/// history the target answered, and asks nothing of any other target.
pub proof fn a_verb_asks_for_what_was_named(
    verb: AdminVerb,
    target: &str,
    cluster_id: &str,
    probe: ProbeClusterResponse,
    r: Result<AdminCall, String>,
)
    requires
        call_ensures(run_cli, (&verb, target, cluster_id, &probe), r),
    ensures
        r is Ok <==> probe.cluster_id@ == cluster_id@ && probe.initialized
            && probe.history_id@.len() == 16,
        r is Ok ==> (verb matches AdminVerb::AddLearner { node_id, addr } ==> (r->Ok_0 matches
            AdminCall::AddLearner(q) && q.node_id == node_id && q.address@ == addr@
            && q.history_id@ == probe.history_id@)),
        r is Ok ==> (verb matches AdminVerb::Promote { node_id, wait } ==> (r->Ok_0 matches
            AdminCall::PromoteVoter { history_id, node_id: promoted, wait: bound } && promoted
            == node_id && bound == wait && history_id@ == probe.history_id@)),
        r is Ok ==> (verb matches AdminVerb::ReplaceVoter { old, new } ==> (r->Ok_0 matches
            AdminCall::ReplaceVoter { history_id, old_node_id, new_node_id } && old_node_id == old
            && new_node_id == new && history_id@ == probe.history_id@)),
        r is Ok ==> (verb matches AdminVerb::Remove { node_id } ==> (r->Ok_0 matches
            AdminCall::RemoveNode { history_id, node_id: removed } && removed == node_id
            && history_id@ == probe.history_id@)),
        r is Ok ==> (verb matches AdminVerb::SetAddress { node_id, addr } ==> (r->Ok_0 matches
            AdminCall::SetNodeAddress(q) && q.node_id == node_id && q.address@ == addr@
            && q.history_id@ == probe.history_id@)),
        r is Ok ==> (verb is Status ==> (r->Ok_0 matches AdminCall::ClusterStatus { history_id }
            && history_id@ == probe.history_id@)),
{
}

/// The five verbs that change membership say so in a line, and no other does.
pub proof fn a_change_is_reported_in_a_line(verb: AdminVerb, r: Option<String>)
    requires
        call_ensures(done_line, (&verb,), r),
    ensures
        r is Some <==> verb is AddLearner || verb is Promote || verb is ReplaceVoter || verb
            is Remove || verb is SetAddress,
        verb matches AdminVerb::AddLearner { node_id, addr } ==> r->0@ == "added node "@
            + text::decimal(node_id as nat) + " as a learner ("@ + addr@ + ")"@,
        verb matches AdminVerb::Promote { node_id, .. } ==> r->0@ == "promoted node "@
            + text::decimal(node_id as nat) + " to voter"@,
        verb matches AdminVerb::ReplaceVoter { old, new } ==> r->0@ == "replaced voter "@
            + text::decimal(old as nat) + " with node "@ + text::decimal(new as nat),
        verb matches AdminVerb::Remove { node_id } ==> r->0@ == "removed node "@ + text::decimal(
            node_id as nat,
        ) + " from membership"@,
        verb matches AdminVerb::SetAddress { node_id, addr } ==> r->0@ == "node "@ + text::decimal(
            node_id as nat,
        ) + " now advertises "@ + addr@,
{
}

} // verus!
