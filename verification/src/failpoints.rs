//! Per-daemon crash injection for the join pipeline, carried by the daemon's
//! own configuration: arming a joiner cannot arm its leader.

use vstd::prelude::*;
use vstd::string::*;

use crate::paths;
use crate::text;
use crate::text::{copy_all, listed};
use crate::time::Duration;

verus! {

/// Halt before the joiner asked to be admitted.
pub const JOIN_BEFORE_ADD_LEARNER: &'static str = "join-before-add-learner";

/// Halt with the admission asked for and its outcome unobserved.
pub const JOIN_ADD_LEARNER_ISSUED: &'static str = "join-add-learner-issued";

/// Halt with the promotion asked for and its outcome unobserved.
pub const JOIN_PROMOTE_VOTER_ISSUED: &'static str = "join-promote-voter-issued";

/// Hold a submission between its authorization and its proposal.
pub const API_SUBMIT_BEFORE_PROPOSE: &'static str = "api-submit-before-propose";

/// Every name a daemon can halt at.
pub const ALL: [&'static str; 3] = [
    JOIN_BEFORE_ADD_LEARNER,
    JOIN_ADD_LEARNER_ISSUED,
    JOIN_PROMOTE_VOTER_ISSUED,
];

/// Every name a daemon can be gated at.
pub const ALL_GATES: [&'static str; 1] = [API_SUBMIT_BEFORE_PROPOSE];

/// How often a parked daemon looks for its release, in milliseconds.
pub const GATE_POLL_INTERVAL_MS: u64 = 10;

/// How long it waits before it carries on regardless, in milliseconds.
pub const GATE_MAX_WAIT_MS: u64 = 60_000;

/// The file that marks a failpoint in a data directory.
pub open spec fn marker(data_dir: Seq<char>, name: Seq<char>, suffix: Seq<char>) -> Seq<char> {
    paths::joined(data_dir, "failpoint-"@ + name + suffix)
}

fn marker_path(data_dir: &str, name: &str, suffix: &str) -> (r: String)
    ensures
        r@ == marker(data_dir@, name@, suffix@),
{
    let file = "failpoint-".to_owned().concat(name).concat(suffix);
    proof {
        reveal_strlit("failpoint-");
        assert(file@[0] == 'f');
    }
    paths::join(data_dir, file.as_str())
}

/// Where a halted daemon records that it reached `name`.
pub fn halt_marker(data_dir: &str, name: &str) -> (r: String)
    ensures
        r@ == marker(data_dir@, name@, ".halted"@),
{
    marker_path(data_dir, name, ".halted")
}

/// Where a daemon held at `name` records that it got there.
pub fn gate_reached_marker(data_dir: &str, name: &str) -> (r: String)
    ensures
        r@ == marker(data_dir@, name@, ".reached"@),
{
    marker_path(data_dir, name, ".reached")
}

/// The file whose existence releases a daemon held at `name`.
pub fn gate_release_marker(data_dir: &str, name: &str) -> (r: String)
    ensures
        r@ == marker(data_dir@, name@, ".release"@),
{
    marker_path(data_dir, name, ".release")
}

/// The three markers of one name never meet: a release can neither be taken
/// for an arrival nor for a halt.
pub proof fn markers_differ(data_dir: Seq<char>, name: Seq<char>)
    ensures
        marker(data_dir, name, ".halted"@) != marker(data_dir, name, ".reached"@),
        marker(data_dir, name, ".halted"@) != marker(data_dir, name, ".release"@),
        marker(data_dir, name, ".reached"@) != marker(data_dir, name, ".release"@),
{
    reveal_strlit(".halted");
    reveal_strlit(".reached");
    reveal_strlit(".release");
    reveal_strlit("/");
    let halted = marker(data_dir, name, ".halted"@);
    let reached = marker(data_dir, name, ".reached"@);
    let release = marker(data_dir, name, ".release"@);
    assert(halted.len() + 1 == reached.len());
    assert(halted.len() + 1 == release.len());
    assert(reached.last() == 'd');
    assert(release.last() == 'e');
}

/// What a daemon's configuration armed.
#[derive(Debug, Clone)]
pub struct Armed {
    pub halt_at: Vec<String>,
    pub gate_at: Vec<String>,
    pub data_dir: String,
}

/// One daemon's failpoints. A daemon without any holds nothing.
#[derive(Debug, Clone)]
pub struct Failpoints {
    pub armed: Option<Armed>,
}

impl Default for Failpoints {
    fn default() -> (r: Self)
        ensures
            r.armed is None,
    {
        Failpoints { armed: None }
    }
}

/// What reaching a gate means.
#[derive(Debug, Clone)]
pub struct GateFiles {
    /// To be written on arrival, and taken away on leaving.
    pub reached: String,
    /// To be taken away on arrival, and then waited for.
    pub release: String,
}

/// What a daemon parked at a gate does.
#[derive(Debug, Clone, Copy, PartialEq, Eq, Structural)]
pub enum GateStep {
    /// Go on: it was released.
    Released,
    /// Go on: no one releases it any more.
    GaveUp,
    /// Look again after this many milliseconds.
    Sleep(u64),
}

impl Failpoints {
    /// Whether a daemon halts at `name`.
    pub open spec fn halts_at(self, name: Seq<char>) -> bool {
        self.armed matches Some(a) && text::views(a.halt_at@).contains(name)
    }

    /// Whether a daemon is gated at `name`.
    pub open spec fn gated_at(self, name: Seq<char>) -> bool {
        self.armed matches Some(a) && text::views(a.gate_at@).contains(name)
    }

    /// The failpoints a configuration names. Two empty lists arm nothing.
    pub fn new(halt_at: &Vec<String>, gate_at: &Vec<String>, data_dir: &str) -> (r: Failpoints)
        ensures
            r.armed is None <==> halt_at@.len() == 0 && gate_at@.len() == 0,
            r.armed matches Some(a) ==> text::views(a.halt_at@) == text::views(halt_at@)
                && text::views(a.gate_at@) == text::views(gate_at@) && a.data_dir@ == data_dir@,
    {
        if halt_at.len() == 0 && gate_at.len() == 0 {
            return Failpoints { armed: None };
        }
        Failpoints {
            armed: Some(
                Armed {
                    halt_at: copy_all(halt_at),
                    gate_at: copy_all(gate_at),
                    data_dir: data_dir.to_owned(),
                },
            ),
        }
    }

    /// Whether the halt `name` would fire.
    pub fn is_armed(&self, name: &str) -> (r: bool)
        ensures
            r == self.halts_at(name@),
    {
        match &self.armed {
            Some(a) => listed(&a.halt_at, name),
            None => false,
        }
    }

    /// Whether a daemon would be held at `name`.
    pub fn is_gate_armed(&self, name: &str) -> (r: bool)
        ensures
            r == self.gated_at(name@),
    {
        match &self.armed {
            Some(a) => listed(&a.gate_at, name),
            None => false,
        }
    }

    /// The marker to write before halting for ever, when `name` is armed.
    pub fn halt_if_armed(&self, name: &str) -> (r: Option<String>)
        ensures
            r is Some <==> self.halts_at(name@),
            r matches Some(m) ==> m@ == marker(self.armed->0.data_dir@, name@, ".halted"@),
    {
        match &self.armed {
            Some(a) => {
                if listed(&a.halt_at, name) {
                    Some(halt_marker(a.data_dir.as_str(), name))
                } else {
                    None
                }
            },
            None => None,
        }
    }

    /// The files a daemon held at `name` goes by, when it is armed.
    pub fn gate_if_armed(&self, name: &str) -> (r: Option<GateFiles>)
        ensures
            r is Some <==> self.gated_at(name@),
            r matches Some(g) ==> g.reached@ == marker(
                self.armed->0.data_dir@,
                name@,
                ".reached"@,
            ) && g.release@ == marker(self.armed->0.data_dir@, name@, ".release"@),
    {
        match &self.armed {
            Some(a) => {
                if listed(&a.gate_at, name) {
                    Some(
                        GateFiles {
                            reached: gate_reached_marker(a.data_dir.as_str(), name),
                            release: gate_release_marker(a.data_dir.as_str(), name),
                        },
                    )
                } else {
                    None
                }
            },
            None => None,
        }
    }
}

/// One look for the release, `waited` after the daemon parked.
pub fn gate_poll(released: bool, waited: &Duration) -> (r: GateStep)
    ensures
        r == (if released {
            GateStep::Released
        } else if waited@ >= GATE_MAX_WAIT_MS * 1_000_000 {
            GateStep::GaveUp
        } else {
            GateStep::Sleep(GATE_POLL_INTERVAL_MS)
        }),
{
    if released {
        GateStep::Released
    } else if Duration::from_millis(GATE_MAX_WAIT_MS).at_most(waited) {
        GateStep::GaveUp
    } else {
        GateStep::Sleep(GATE_POLL_INTERVAL_MS)
    }
}

/// A failpoint is armed exactly where its own list names it: a halt is no
/// gate, and a gate is no halt.
pub proof fn a_failpoint_is_armed_by_its_list(
    halt_at: Vec<String>,
    gate_at: Vec<String>,
    data_dir: &str,
    name: &str,
    points: Failpoints,
    halts: bool,
    gated: bool,
    halt: Option<String>,
    gate: Option<GateFiles>,
)
    requires
        call_ensures(Failpoints::new, (&halt_at, &gate_at, data_dir), points),
        call_ensures(Failpoints::is_armed, (&points, name), halts),
        call_ensures(Failpoints::is_gate_armed, (&points, name), gated),
        call_ensures(Failpoints::halt_if_armed, (&points, name), halt),
        call_ensures(Failpoints::gate_if_armed, (&points, name), gate),
    ensures
        halts <==> text::views(halt_at@).contains(name@),
        gated <==> text::views(gate_at@).contains(name@),
        halt is Some <==> halts,
        gate is Some <==> gated,
{
    assert(text::views(halt_at@).len() == halt_at@.len());
    assert(text::views(gate_at@).len() == gate_at@.len());
}

/// A gated daemon goes on when it is released, or after a minute; until then
/// it looks every ten milliseconds.
pub proof fn a_gate_holds_for_a_minute(released: bool, waited: Duration, r: GateStep)
    requires
        call_ensures(gate_poll, (released, &waited), r),
    ensures
        released <==> r == GateStep::Released,
        !released && waited@ >= 60_000_000_000 ==> r == GateStep::GaveUp,
        !released && waited@ < 60_000_000_000 ==> r == GateStep::Sleep(10),
{
}

} // verus!
