//! One pass against a leader, and what a tick comes to.
//!
//! The verbs are idempotent by contract, so a pass is safe to repeat from the
//! top however the last one ended; that is why it holds no state of its own.

use vstd::prelude::*;
use vstd::string::*;

use crate::admin::membership::AddLearnerRequest;
use crate::cluster::ClusterSummary;
use crate::config::PacingConfig;
use crate::convergence::classify;
use crate::convergence::classify::{cross_history_refusal, JoinStep};
use crate::status::Status;
use crate::text;
use crate::time::Duration;
use crate::wire::{copy_bytes, ClusterStatusResponse, ReplicationProgress};

verus! {

// ---------------------------------------------------------------------------
// One pass: admission, catch-up, promotion
// ---------------------------------------------------------------------------

/// What a pass asks its driver for next.
#[derive(Debug, Clone)]
pub enum JoinAct {
    /// Ask the leader to admit this replica at its advertised address.
    AddLearner(AddLearnerRequest),
    /// Ask the leader how far it has replicated to this replica.
    ReadStatus { history_id: Vec<u8> },
    /// Ask the leader to promote this replica.
    PromoteVoter { history_id: Vec<u8>, node_id: u64 },
    /// The pass is over.
    Done(JoinStep),
}

/// How far a learner must have replicated to be worth promoting.
pub open spec fn catch_up_floor(status: ClusterStatusResponse, lag_max: u64) -> int {
    if status.last_applied_index >= lag_max {
        status.last_applied_index - lag_max
    } else {
        0
    }
}

/// Whether the leader itself reports this node within `lag_max` entries of
/// what it applied.
pub open spec fn caught_up(status: ClusterStatusResponse, node_id: u64, lag_max: u64) -> bool {
    exists|i: int|
        {
            &&& 0 <= i < status.replication@.len()
            &&& (#[trigger] status.replication@[i]).node_id == node_id
            &&& status.replication@[i].matched_index >= catch_up_floor(status, lag_max)
        }
}

/// Whether the leader itself reports this node within `lag_max` entries of
/// what it applied. The local frontier is not consulted: a learner that has
/// received nothing yet reads zero lag against its own.
pub fn is_caught_up(status: &ClusterStatusResponse, node_id: u64, lag_max: u64) -> (r: bool)
    ensures
        r == caught_up(*status, node_id, lag_max),
{
    let floor: u64 = status.last_applied_index.saturating_sub(lag_max);
    let mut i: usize = 0;
    while i < status.replication.len()
        invariant
            i <= status.replication@.len(),
            floor == catch_up_floor(*status, lag_max),
            forall|j: int|
                0 <= j < i ==> !((#[trigger] status.replication@[j]).node_id == node_id
                    && status.replication@[j].matched_index >= floor),
        decreases status.replication@.len() - i,
    {
        let p: ReplicationProgress = status.replication[i];
        if p.node_id == node_id && p.matched_index >= floor {
            assert(status.replication@[i as int].node_id == node_id);
            return true;
        }
        i = i + 1;
    }
    false
}

/// Promotion waits for exactly the allowed lag: with a row of the leader's
/// own report for this node, it is caught up when that row plus the lag
/// reaches what the leader applied, and not when every row falls short.
pub proof fn caught_up_is_within_the_allowed_lag(
    status: ClusterStatusResponse,
    node_id: u64,
    lag_max: u64,
    r: bool,
)
    requires
        call_ensures(is_caught_up, (&status, node_id, lag_max), r),
    ensures
        r <==> exists|i: int|
            0 <= i < status.replication@.len() && (#[trigger] status.replication@[i]).node_id
                == node_id && status.replication@[i].matched_index + lag_max
                >= status.last_applied_index,
{
}

/// The leader's admin surface was dialled, or not. Every request of a pass
/// names the history this replica is stamped for.
pub fn on_dialled(dialled: bool, history: &Vec<u8>, node_id: u64, advertised: &str) -> (r: JoinAct)
    ensures
        dialled ==> (r matches JoinAct::AddLearner(q) && q.history_id@ == history@ && q.node_id
            == node_id && q.address@ == advertised@),
        !dialled ==> (r matches JoinAct::Done(step) && step is Retry),
{
    if dialled {
        JoinAct::AddLearner(
            AddLearnerRequest {
                history_id: copy_bytes(history),
                node_id,
                address: advertised.to_owned(),
            },
        )
    } else {
        JoinAct::Done(JoinStep::Retry)
    }
}

/// The leader admitted this replica, or refused.
pub fn on_admitted(admitted: &Result<(), Status>, history: &Vec<u8>) -> (r: JoinAct)
    ensures
        admitted is Ok ==> (r matches JoinAct::ReadStatus { history_id } && history_id@ == history@),
        admitted matches Err(s) ==> r matches JoinAct::Done(step) && classify::follows(
            step,
            s@.message,
        ),
{
    match admitted {
        Ok(_) => JoinAct::ReadStatus { history_id: copy_bytes(history) },
        Err(s) => JoinAct::Done(classify::classify(s)),
    }
}

/// The leader reported its replication, or refused. Promotion is asked for
/// only once the leader's own view says this replica has caught up.
pub fn on_status(
    status: &Result<ClusterStatusResponse, Status>,
    history: &Vec<u8>,
    node_id: u64,
    lag_max: u64,
) -> (r: JoinAct)
    ensures
        r is PromoteVoter <==> status is Ok && caught_up(status->Ok_0, node_id, lag_max),
        r matches JoinAct::PromoteVoter { history_id, node_id: promoted } ==> history_id@
            == history@ && promoted == node_id,
        (status is Ok && !caught_up(status->Ok_0, node_id, lag_max)) ==> (r matches JoinAct::Done(
            step,
        ) && step is Learner),
        status matches Err(s) ==> r matches JoinAct::Done(step) && classify::follows(
            step,
            s@.message,
        ),
{
    match status {
        Ok(answer) => if is_caught_up(answer, node_id, lag_max) {
            JoinAct::PromoteVoter { history_id: copy_bytes(history), node_id }
        } else {
            JoinAct::Done(JoinStep::Learner)
        },
        Err(s) => JoinAct::Done(classify::classify(s)),
    }
}

/// Promotion is asked for when and only when the leader's own report has a row
/// of this node within the allowed lag: a node all of whose rows are further
/// behind stays a learner and keeps polling. What is asked for is this node,
/// under this history.
pub proof fn promotion_waits_for_catch_up(
    status: ClusterStatusResponse,
    history: Vec<u8>,
    node_id: u64,
    lag_max: u64,
    r: JoinAct,
)
    requires
        call_ensures(
            on_status,
            (&Ok::<ClusterStatusResponse, Status>(status), &history, node_id, lag_max),
            r,
        ),
    ensures
        r is PromoteVoter <==> exists|i: int|
            0 <= i < status.replication@.len() && (#[trigger] status.replication@[i]).node_id
                == node_id && status.replication@[i].matched_index + lag_max
                >= status.last_applied_index,
        r matches JoinAct::PromoteVoter { history_id, node_id: asked } ==> history_id@ == history@
            && asked == node_id,
        !(r is PromoteVoter) ==> r == JoinAct::Done(JoinStep::Learner),
        (forall|i: int|
            0 <= i < status.replication@.len() && (#[trigger] status.replication@[i]).node_id
                == node_id ==> status.last_applied_index - status.replication@[i].matched_index
                > lag_max) ==> !(r is PromoteVoter),
{
}

/// A larger allowance never delays a promotion.
pub proof fn more_lag_allowed_never_delays(
    status: ClusterStatusResponse,
    node_id: u64,
    less: u64,
    more: u64,
    a: bool,
    b: bool,
)
    requires
        less <= more,
        call_ensures(is_caught_up, (&status, node_id, less), a),
        call_ensures(is_caught_up, (&status, node_id, more), b),
    ensures
        a ==> b,
{
    if a {
        let i = choose|i: int|
            0 <= i < status.replication@.len() && (#[trigger] status.replication@[i]).node_id
                == node_id && status.replication@[i].matched_index >= catch_up_floor(status, less);
        assert(status.replication@[i].matched_index >= catch_up_floor(status, more));
    }
}

/// A pass goes on step by step: whoever was dialled is asked to admit this
/// replica at its address, an admission is followed by the leader's status,
/// and anything that failed ends the pass.
pub proof fn a_pass_goes_on_only_from_success(
    dialled: bool,
    history: Vec<u8>,
    node_id: u64,
    advertised: &str,
    admitted: Result<(), Status>,
    first: JoinAct,
    second: JoinAct,
)
    requires
        call_ensures(on_dialled, (dialled, &history, node_id, advertised), first),
        call_ensures(on_admitted, (&admitted, &history), second),
    ensures
        dialled ==> (first matches JoinAct::AddLearner(q) && q.node_id == node_id && q.address@
            == advertised@ && q.history_id@ == history@),
        !dialled ==> first == JoinAct::Done(JoinStep::Retry),
        admitted is Ok ==> (second matches JoinAct::ReadStatus { history_id } && history_id@
            == history@),
        admitted is Err ==> (second matches JoinAct::Done(step) && !(step is Promoted)),
{
}

/// The leader promoted this replica, or refused.
pub fn on_promoted(promoted: &Result<(), Status>) -> (r: JoinStep)
    ensures
        promoted is Ok <==> r is Promoted,
        promoted matches Err(s) ==> classify::follows(r, s@.message),
{
    match promoted {
        Ok(_) => JoinStep::Promoted,
        Err(s) => classify::classify(s),
    }
}

// ---------------------------------------------------------------------------
// One tick
// ---------------------------------------------------------------------------

/// What a tick leaves in the readiness document.
#[derive(Debug, Clone)]
pub enum Notice {
    /// Whatever is there stays.
    Keep,
    /// Nothing is pending any more.
    Clear,
    /// Promotion is held up; no operator is needed.
    PromotionHold(String),
    /// Admission was refused; an operator should look.
    AdmissionRefusal(String),
}

/// What a tick leaves behind, and how long to wait for the next.
#[derive(Debug, Clone)]
pub struct Tick {
    pub notice: Notice,
    pub wait: Duration,
}

/// Whether this replica holds a voter seat in its own membership view.
pub open spec fn is_voter(summary: ClusterSummary) -> bool {
    summary.seats(summary.local_id) && summary.members@[summary.seat_of(summary.local_id)].voter
}

/// Whether this replica holds a voter seat: then membership has converged, and
/// all a tick does is clear its notices and watch for a superseding history.
pub fn holds_seat(summary: &ClusterSummary) -> (r: bool)
    ensures
        r == is_voter(*summary),
{
    match summary.find(summary.local_id) {
        Some(at) => summary.members[at].voter,
        None => false,
    }
}

/// The tick of a replica that holds its seat.
pub fn settled_tick(pacing: &PacingConfig) -> (r: Tick)
    ensures
        r.notice is Clear,
        r.wait == pacing.settled_interval,
{
    Tick { notice: Notice::Clear, wait: pacing.settled_interval }
}

/// What follows the search for a leader.
#[derive(Debug, Clone)]
pub enum AfterSearch {
    /// The tick is over.
    Over(Tick),
    /// Run one pass against this leader.
    Join(String),
}

/// Judge what the search found. Histories are compared before asking to be
/// admitted: two raft histories never merge, so a mismatch is surfaced and
/// backed off hard instead of being asked about again and again.
pub fn after_search(
    found: Option<(String, Vec<u8>)>,
    stamped: &Vec<u8>,
    pacing: &PacingConfig,
) -> (r: AfterSearch)
    ensures
        match found {
            None => r matches AfterSearch::Over(t) && t.notice is Keep && t.wait
                == pacing.probe_interval,
            Some((addr, history)) => if history@ == stamped@ {
                r matches AfterSearch::Join(a) && a@ == addr@
            } else {
                &&& r matches AfterSearch::Over(t)
                &&& t.wait == pacing.refusal_backoff
                &&& t.notice matches Notice::AdmissionRefusal(m)
                &&& m@ == classify::cross_history_text(addr@, history@, stamped@)
            },
        },
{
    match found {
        None => AfterSearch::Over(Tick { notice: Notice::Keep, wait: pacing.probe_interval }),
        Some((addr, history)) => {
            if text::same_bytes(history.as_slice(), stamped.as_slice()) {
                AfterSearch::Join(addr)
            } else {
                let message = cross_history_refusal(
                    addr.as_str(),
                    history.as_slice(),
                    stamped.as_slice(),
                );
                AfterSearch::Over(
                    Tick {
                        notice: Notice::AdmissionRefusal(message),
                        wait: pacing.refusal_backoff,
                    },
                )
            }
        },
    }
}

/// What a pass against the leader makes of the tick: a promotion settles it, a
/// held seat is polled at the settled cadence with its reason visible, an
/// unverified endpoint is surfaced but retried fast, and a refusal is surfaced
/// and backed off hard.
pub fn after_join(step: JoinStep, pacing: &PacingConfig) -> (r: Tick)
    ensures
        match step {
            JoinStep::Promoted => r.notice is Clear && r.wait == pacing.settled_interval,
            JoinStep::Learner => r.notice is Keep && r.wait == pacing.probe_interval,
            JoinStep::VoterSetFull(m) => (r.notice matches Notice::PromotionHold(n) && n == m)
                && r.wait == pacing.settled_interval,
            JoinStep::Retry => r.notice is Keep && r.wait == pacing.probe_interval,
            JoinStep::EndpointUnverified(m) => (r.notice matches Notice::AdmissionRefusal(n) && n
                == m) && r.wait == pacing.probe_interval,
            JoinStep::Refused(m) => (r.notice matches Notice::AdmissionRefusal(n) && n == m)
                && r.wait == pacing.refusal_backoff,
        },
{
    match step {
        JoinStep::Promoted => settled_tick(pacing),
        JoinStep::Learner => Tick { notice: Notice::Keep, wait: pacing.probe_interval },
        JoinStep::VoterSetFull(message) => Tick {
            notice: Notice::PromotionHold(message),
            wait: pacing.settled_interval,
        },
        JoinStep::Retry => Tick { notice: Notice::Keep, wait: pacing.probe_interval },
        JoinStep::EndpointUnverified(message) => Tick {
            notice: Notice::AdmissionRefusal(message),
            wait: pacing.probe_interval,
        },
        JoinStep::Refused(message) => Tick {
            notice: Notice::AdmissionRefusal(message),
            wait: pacing.refusal_backoff,
        },
    }
}

/// Each outcome of a pass has its cadence and its notice: only a promotion
/// clears what was noted, only a refusal no waiting fixes is backed off hard,
/// and what an operator has to see is never dropped.
pub proof fn each_outcome_has_its_cadence(step: JoinStep, pacing: PacingConfig, r: Tick)
    requires
        call_ensures(after_join, (step, &pacing), r),
    ensures
        r.notice is Clear <==> step is Promoted,
        r.notice is Keep <==> step is Learner || step is Retry,
        r.notice is PromotionHold <==> step is VoterSetFull,
        r.notice is AdmissionRefusal <==> step is Refused || step is EndpointUnverified,
        step matches JoinStep::VoterSetFull(m) ==> r.notice == Notice::PromotionHold(m),
        step matches JoinStep::Refused(m) ==> r.notice == Notice::AdmissionRefusal(m),
        step matches JoinStep::EndpointUnverified(m) ==> r.notice == Notice::AdmissionRefusal(m),
        step is Promoted || step is VoterSetFull ==> r.wait == pacing.settled_interval,
        step is Learner || step is Retry || step is EndpointUnverified ==> r.wait
            == pacing.probe_interval,
        step is Refused ==> r.wait == pacing.refusal_backoff,
{
}

/// A cluster of another history is never joined, and one of this history
/// always is: the address that was found is the one dialled.
pub proof fn only_the_same_history_is_joined(
    addr: String,
    history: Vec<u8>,
    stamped: Vec<u8>,
    pacing: PacingConfig,
    r: AfterSearch,
    nobody: AfterSearch,
)
    requires
        call_ensures(after_search, (Some((addr, history)), &stamped, &pacing), r),
        call_ensures(after_search, (None::<(String, Vec<u8>)>, &stamped, &pacing), nobody),
    ensures
        r is Join <==> history@ == stamped@,
        r matches AfterSearch::Join(a) ==> a@ == addr@,
        r matches AfterSearch::Over(t) ==> t.wait == pacing.refusal_backoff && t.notice
            is AdmissionRefusal,
        nobody matches AfterSearch::Over(t) && t.wait == pacing.probe_interval && t.notice is Keep,
{
}

/// A replica holds its seat exactly when its own entry in membership votes.
pub proof fn a_seat_is_held_by_voting(
    summary: ClusterSummary,
    at: int,
    pacing: PacingConfig,
    r: bool,
    t: Tick,
)
    requires
        call_ensures(holds_seat, (&summary,), r),
        call_ensures(settled_tick, (&pacing,), t),
        0 <= at < summary.members@.len(),
        summary.members@[at].id == summary.local_id,
        forall|j: int| 0 <= j < at ==> (#[trigger] summary.members@[j]).id != summary.local_id,
    ensures
        r == summary.members@[at].voter,
        t.notice is Clear && t.wait == pacing.settled_interval,
{
    crate::cluster::a_seat_is_a_members_id(summary, summary.local_id);
    let seat = summary.seat_of(summary.local_id);
    assert(summary.members@[at].id == summary.local_id);
    if seat < at {
        assert(summary.members@[seat].id == summary.local_id);
    }
    assert(seat == at);
}

/// Wherever in a pass a refusal comes, it leads where its marker says, with
/// its own text where an operator has to see it; and only the leader's consent
/// makes a voter.
pub proof fn a_refusal_is_classified_wherever_it_comes(
    s: Status,
    history: Vec<u8>,
    node_id: u64,
    lag_max: u64,
    consent: Result<(), Status>,
    step: JoinStep,
    admitted: JoinAct,
    reported: JoinAct,
    promoted: JoinStep,
    outcome: JoinStep,
)
    requires
        call_ensures(classify::classify, (&s,), step),
        call_ensures(on_admitted, (&Err::<(), Status>(s), &history), admitted),
        call_ensures(
            on_status,
            (&Err::<ClusterStatusResponse, Status>(s), &history, node_id, lag_max),
            reported,
        ),
        call_ensures(on_promoted, (&Err::<(), Status>(s),), promoted),
        call_ensures(on_promoted, (&consent,), outcome),
    ensures
        outcome is Promoted <==> consent is Ok,
        admitted is Done && reported is Done,
        same_step(step, admitted->Done_0),
        same_step(step, reported->Done_0),
        same_step(step, promoted),
{
}

/// Whether two steps are the same, down to what an operator reads.
pub open spec fn same_step(a: JoinStep, b: JoinStep) -> bool {
    match (a, b) {
        (JoinStep::Promoted, JoinStep::Promoted) => true,
        (JoinStep::Learner, JoinStep::Learner) => true,
        (JoinStep::Retry, JoinStep::Retry) => true,
        (JoinStep::VoterSetFull(x), JoinStep::VoterSetFull(y)) => x@ == y@,
        (JoinStep::Refused(x), JoinStep::Refused(y)) => x@ == y@,
        (JoinStep::EndpointUnverified(x), JoinStep::EndpointUnverified(y)) => x@ == y@,
        _ => false,
    }
}

} // verus!
