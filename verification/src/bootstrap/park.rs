//! Waiting for a cluster to be formed here.
//!
//! A parked daemon never forms a cluster by itself: the one way out that
//! produces one is an operator's request on the local socket.

use vstd::prelude::*;
use vstd::string::*;

use crate::formation::phase;
use crate::formation::phase::failed_diagnostic;
use crate::formation::startup::StartupState;

verus! {

/// How long requests in flight get before the listeners are handed over, in
/// seconds.
pub const CLOSED_SURFACE_DRAIN_SECS: u64 = 2;

/// What a parked daemon hears.
#[derive(Debug, Clone, Copy, PartialEq, Eq, Structural)]
pub enum ParkEvent {
    /// A request to form.
    Call,
    /// No one can ask any more.
    Closed,
    /// The daemon is told to stop.
    Stop,
}

/// How a stint in the parked state ended.
#[derive(Debug, Clone, Copy, PartialEq, Eq, Structural)]
pub enum ParkOutcome {
    /// A cluster was formed.
    Formed,
    /// The daemon was told to stop.
    Shutdown,
    /// A formation died after its intent was stamped.
    Failed { intent_at_us: i64 },
}

/// Where a parked daemon is.
#[derive(Debug, Clone, Copy, PartialEq, Eq, Structural)]
pub enum Parked {
    /// Available for a request.
    Waiting,
    /// A formation runs.
    Forming,
    /// A formation failed for good. Requests already queued are still
    /// answered; `drained` tells that none can come any more.
    Stopped { intent_at_us: i64, drained: bool },
    /// Over.
    Left(ParkOutcome),
}

/// What a parked daemon does about an event.
#[derive(Debug, Clone)]
pub enum ParkAct {
    Nothing,
    /// Form.
    Form,
    /// Answer the queued request with this failure.
    Answer(String),
}

/// Where an event takes a parked daemon. While a formation runs nothing else
/// is heard.
pub open spec fn parked_after(at: Parked, event: ParkEvent) -> Parked {
    match at {
        Parked::Waiting => match event {
            ParkEvent::Call => Parked::Forming,
            ParkEvent::Closed => Parked::Left(ParkOutcome::Shutdown),
            ParkEvent::Stop => Parked::Left(ParkOutcome::Shutdown),
        },
        Parked::Stopped { intent_at_us, drained } => match event {
            ParkEvent::Call => at,
            ParkEvent::Closed => Parked::Stopped { intent_at_us, drained: true },
            ParkEvent::Stop => Parked::Left(ParkOutcome::Failed { intent_at_us }),
        },
        _ => at,
    }
}

/// The daemon hears an event. `shown` is the instant of a dangling intent as a
/// calendar writes it, when it can.
pub fn park(at: Parked, event: ParkEvent, shown: &Option<String>) -> (r: (Parked, ParkAct))
    ensures
        r.0 == parked_after(at, event),
        match (at, event) {
            (Parked::Waiting, ParkEvent::Call) => r.1 is Form,
            (Parked::Stopped { intent_at_us, .. }, ParkEvent::Call) => r.1 matches ParkAct::Answer(
                m,
            ) && m@ == phase::failed_text(
                phase::instant_text(
                    intent_at_us,
                    match *shown {
                        Some(s) => Some(s@),
                        None => None,
                    },
                ),
            ),
            _ => r.1 is Nothing,
        },
{
    match at {
        Parked::Waiting => match event {
            ParkEvent::Call => (Parked::Forming, ParkAct::Form),
            ParkEvent::Closed => (Parked::Left(ParkOutcome::Shutdown), ParkAct::Nothing),
            ParkEvent::Stop => (Parked::Left(ParkOutcome::Shutdown), ParkAct::Nothing),
        },
        Parked::Stopped { intent_at_us, .. } => match event {
            ParkEvent::Call => (
                at,
                ParkAct::Answer(failed_diagnostic(intent_at_us, shown)),
            ),
            ParkEvent::Closed => (
                Parked::Stopped { intent_at_us, drained: true },
                ParkAct::Nothing,
            ),
            ParkEvent::Stop => (
                Parked::Left(ParkOutcome::Failed { intent_at_us }),
                ParkAct::Nothing,
            ),
        },
        _ => (at, ParkAct::Nothing),
    }
}

/// A formation ended. After a failure the directory is read again in place of
/// guessing: where nothing was stamped the daemon stays available for a
/// corrected request, and where an intent was it stops.
pub fn on_formed(formed: bool, directory: &StartupState) -> (r: Parked)
    ensures
        r == (if formed {
            Parked::Left(ParkOutcome::Formed)
        } else {
            match *directory {
                StartupState::FormationFailed { intent_at_us } => Parked::Stopped {
                    intent_at_us,
                    drained: false,
                },
                _ => Parked::Waiting,
            }
        }),
{
    if formed {
        return Parked::Left(ParkOutcome::Formed);
    }
    match directory {
        StartupState::FormationFailed { intent_at_us } => Parked::Stopped {
            intent_at_us: *intent_at_us,
            drained: false,
        },
        _ => Parked::Waiting,
    }
}

/// What a daemon that leaves the parked state does.
#[derive(Debug, Clone)]
pub enum AfterPark {
    /// Serve the formed cluster.
    Serve,
    /// Exit cleanly: there never was a cluster.
    Exit,
    /// Exit with this.
    Fail(String),
}

/// What a daemon that leaves the parked state does. One whose formation died
/// exits as a restart into that state would.
pub fn after_park(outcome: ParkOutcome, shown: &Option<String>) -> (r: AfterPark)
    ensures
        match outcome {
            ParkOutcome::Formed => r is Serve,
            ParkOutcome::Shutdown => r is Exit,
            ParkOutcome::Failed { intent_at_us } => r matches AfterPark::Fail(m) && m@
                == "refusing to serve: "@ + phase::failed_text(
                phase::instant_text(
                    intent_at_us,
                    match *shown {
                        Some(s) => Some(s@),
                        None => None,
                    },
                ),
            ),
        },
{
    match outcome {
        ParkOutcome::Formed => AfterPark::Serve,
        ParkOutcome::Shutdown => AfterPark::Exit,
        ParkOutcome::Failed { intent_at_us } => AfterPark::Fail(
            "refusing to serve: ".to_owned().concat(
                failed_diagnostic(intent_at_us, shown).as_str(),
            ),
        ),
    }
}

/// Where a run of events takes a daemon that starts out waiting.
pub open spec fn parked_run(events: Seq<ParkEvent>) -> Parked
    decreases events.len(),
{
    if events.len() == 0 {
        Parked::Waiting
    } else {
        parked_after(parked_run(events.drop_last()), events.last())
    }
}

/// A parked daemon never forms a cluster by itself: without a request, no run
/// of events takes it anywhere but to wait on, or out.
pub proof fn no_request_no_cluster(events: Seq<ParkEvent>)
    requires
        forall|i: int| 0 <= i < events.len() ==> events[i] != ParkEvent::Call,
    ensures
        parked_run(events) == Parked::Waiting || parked_run(events) == Parked::Left(
            ParkOutcome::Shutdown,
        ),
    decreases events.len(),
{
    if events.len() > 0 {
        let before = events.drop_last();
        assert forall|i: int| 0 <= i < before.len() implies before[i] != ParkEvent::Call by {
            assert(before[i] == events[i]);
        }
        no_request_no_cluster(before);
        assert(events.last() == events[events.len() - 1]);
    }
}

/// A stopped formation is never retried: no event leads from it back to a
/// formation, and the only way out is to be told to stop.
pub proof fn a_stopped_formation_stays_stopped(intent_at_us: i64, drained: bool, event: ParkEvent)
    ensures
        ({
            let next = parked_after(Parked::Stopped { intent_at_us, drained }, event);
            ||| next matches Parked::Stopped { intent_at_us: at, .. } && at == intent_at_us
            ||| next == Parked::Left(ParkOutcome::Failed { intent_at_us }) && event
                == ParkEvent::Stop
        }),
{
}

// ---------------------------------------------------------------------------
// What a parked daemon does
// ---------------------------------------------------------------------------

/// A formation starts exactly where a waiting daemon is asked for one.
pub proof fn a_formation_starts_on_request(
    at: Parked,
    event: ParkEvent,
    shown: Option<String>,
    r: (Parked, ParkAct),
)
    requires
        call_ensures(park, (at, event, &shown), r),
    ensures
        r.1 is Form <==> at == Parked::Waiting && event == ParkEvent::Call,
        r.1 is Answer <==> at is Stopped && event == ParkEvent::Call,
        at == Parked::Waiting && event == ParkEvent::Call ==> r.0 == Parked::Forming,
        at == Parked::Waiting && event != ParkEvent::Call ==> r.0 == Parked::Left(
            ParkOutcome::Shutdown,
        ),
        at == Parked::Forming ==> r.0 == Parked::Forming,
        at is Left ==> r.0 == at,
        at matches Parked::Stopped { intent_at_us, drained } ==> (event == ParkEvent::Stop ==> r.0
            == Parked::Left(ParkOutcome::Failed { intent_at_us })) && (event == ParkEvent::Call
            ==> r.0 == at) && (event == ParkEvent::Closed ==> r.0 == (Parked::Stopped {
            intent_at_us,
            drained: true,
        })),
{
}

/// After a formation the directory decides: an intent left behind stops the
/// daemon, anything else leaves it waiting; and success leaves.
pub proof fn a_failed_formation_is_judged_by_its_directory(
    formed: bool,
    directory: StartupState,
    r: Parked,
)
    requires
        call_ensures(on_formed, (formed, &directory), r),
    ensures
        formed <==> r == Parked::Left(ParkOutcome::Formed),
        !formed && directory is FormationFailed ==> (r matches Parked::Stopped {
            intent_at_us,
            drained,
        } && intent_at_us == directory->intent_at_us && !drained),
        !formed && !(directory is FormationFailed) ==> r == Parked::Waiting,
{
}

/// A daemon serves only what was formed, exits cleanly when it was told to
/// stop, and fails where a formation died.
pub proof fn a_daemon_leaves_as_its_stint_ended(
    outcome: ParkOutcome,
    shown: Option<String>,
    r: AfterPark,
)
    requires
        call_ensures(after_park, (outcome, &shown), r),
    ensures
        r is Serve <==> outcome == ParkOutcome::Formed,
        r is Exit <==> outcome == ParkOutcome::Shutdown,
        r is Fail <==> outcome is Failed,
{
}

} // verus!
