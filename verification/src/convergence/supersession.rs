//! Whether this replica's raft history has been superseded by a re-init of a
//! cluster of the same name.
//!
//! A false alarm here takes down a working replica, so the only trigger is a
//! positive observation of a formed cluster of this name with another history.
//! Over the mutually authenticated plane one observation is conclusive; over
//! the public edge the same history must be seen on three rounds in a row.

use vstd::prelude::*;
use vstd::string::*;

use crate::config::EnrollmentConfig;
use crate::convergence::leader;
use crate::text;
use crate::wire::ProbeClusterResponse;

verus! {

/// How many consecutive rounds the public edge must name the same superseding
/// history before the daemon stops.
pub const SUPERSESSION_ROUNDS: u32 = 3;

/// The marker every history-superseded message begins with.
pub const HISTORY_SUPERSEDED: &'static str = "history-superseded";

/// The daemon-wide stop. The first reason wins.
#[derive(Debug, Clone)]
pub struct FailStop {
    reason: Option<String>,
    draining: bool,
}

impl FailStop {
    /// The recorded reason.
    pub closed spec fn why(self) -> Option<Seq<char>> {
        match self.reason {
            Some(r) => Some(r@),
            None => None,
        }
    }

    /// Whether the daemon is draining.
    pub closed spec fn drains(self) -> bool {
        self.draining
    }

    pub fn new() -> (r: FailStop)
        ensures
            r.why() is None,
            !r.drains(),
    {
        FailStop { reason: None, draining: false }
    }

    /// Record why the daemon is stopping and start the drain. A second trigger
    /// cannot overwrite the first reason.
    pub fn trigger(&mut self, reason: String)
        ensures
            final(self).drains(),
            final(self).why() == match old(self).why() {
                Some(first) => Some(first),
                None => Some(reason@),
            },
    {
        if self.reason.is_none() {
            self.reason = Some(reason);
        }
        self.draining = true;
    }

    /// The recorded reason, when the daemon is stopping for one.
    pub fn reason(&self) -> (r: Option<String>)
        ensures
            (match r {
                Some(s) => Some(s@),
                None => None,
            }) == self.why(),
    {
        match &self.reason {
            Some(r) => Some(r.clone()),
            None => None,
        }
    }

    pub fn is_draining(&self) -> (r: bool)
        ensures
            r == self.drains(),
    {
        self.draining
    }
}

/// What was observed, on which channel, and what an operator does about it.
pub open spec fn supersession_text(
    observed_at: Seq<char>,
    channel: Seq<char>,
    observed: Seq<char>,
    stamped: Seq<char>,
) -> Seq<char> {
    HISTORY_SUPERSEDED@ + ": "@ + observed_at
        + " reports a formed cluster with this daemon's cluster_id but raft history "@ + observed
        + ", while this data directory is stamped for history "@ + stamped + " — observed over "@
        + channel + ". A history id is minted once per formation, so this means the cluster was "@
        + "deliberately re-initialized and the state on this volume predates it; the two "@
        + "histories can never merge (ADR 0016 / ADR 0037 §3). Either restore the fleet from a "@
        + "backup of history "@ + stamped
        + ", or wipe this data directory so this daemon enrolls into history "@ + observed
        + " as a new installation — but not both, and not neither."@
}

/// The history-superseded message.
pub fn supersession_refusal(observed_at: &str, channel: &str, observed: &str, stamped: &str) -> (r:
    String)
    ensures
        r@ == supersession_text(observed_at@, channel@, observed@, stamped@),
{
    HISTORY_SUPERSEDED.to_owned().concat(": ").concat(observed_at).concat(
        " reports a formed cluster with this daemon's cluster_id but raft history ",
    ).concat(observed).concat(", while this data directory is stamped for history ").concat(
        stamped,
    ).concat(" — observed over ").concat(channel).concat(
        ". A history id is minted once per formation, so this means the cluster was ",
    ).concat("deliberately re-initialized and the state on this volume predates it; the two ").concat(
        "histories can never merge (ADR 0016 / ADR 0037 §3). Either restore the fleet from a ",
    ).concat("backup of history ").concat(stamped).concat(
        ", or wipe this data directory so this daemon enrolls into history ",
    ).concat(observed).concat(" as a new installation — but not both, and not neither.")
}

/// The channel of the mutually authenticated plane.
pub open spec fn machine_plane() -> Seq<char> {
    "the mutually authenticated machine plane"@
}

/// The channel of the public edge.
pub open spec fn public_plane() -> Seq<char> {
    "the cluster's public client edge, on three consecutive rounds"@
}

/// What the public edge reported of itself.
#[derive(Debug, Clone)]
pub struct EdgeReport {
    pub cluster_id: String,
    pub history_id: Option<String>,
}

/// What an observation comes to.
#[derive(Debug, Clone)]
pub enum Verdict {
    /// Nothing conclusive; this round is over.
    Over,
    /// Stop the daemon with this message.
    FailStop(String),
}

/// What a watching voter does next in a round.
#[derive(Debug, Clone)]
pub enum Look {
    /// Probe the target at this index.
    Probe(usize),
    /// Ask the public edge.
    Edge,
    /// Nothing; this round is over.
    Over,
    /// Stop the daemon with this message.
    FailStop(String),
}

/// Whom a round asks.
pub enum Asked {
    Peer(nat),
    Edge,
    Nobody,
}

impl Look {
    /// Whom this step asks.
    pub open spec fn asks(self) -> Asked {
        match self {
            Look::Probe(at) => Asked::Peer(at as nat),
            Look::Edge => Asked::Edge,
            _ => Asked::Nobody,
        }
    }
}

/// Whom a round asks once the targets before `at` stayed silent: the next
/// target, and after the last of them the public edge, if there is one.
pub open spec fn after_silence(targets: nat, at: nat, edge: bool) -> Asked {
    if at < targets {
        Asked::Peer(at)
    } else if edge {
        Asked::Edge
    } else {
        Asked::Nobody
    }
}

/// Whether one step of a round leads to another: a peer was asked, it stayed
/// silent, and the question was passed on.
pub open spec fn passes_on(
    targets: nat,
    edge: bool,
    step: (Asked, bool),
    next: (Asked, bool),
) -> bool {
    &&& step.0 is Peer
    &&& !step.1
    &&& next.0 == after_silence(targets, step.0->Peer_0 + 1, edge)
}

/// Whether these are the steps of one round, in order: whom each asked, and
/// whether an answer came.
pub open spec fn is_round(targets: nat, edge: bool, round: Seq<(Asked, bool)>) -> bool {
    &&& round.len() > 0
    &&& round[0].0 == after_silence(targets, 0, edge)
    &&& forall|i: int, j: int|
        0 <= i && j == i + 1 && j < round.len() ==> #[trigger] passes_on(
            targets,
            edge,
            round[i],
            round[j],
        )
}

proof fn the_nth_step_asks_the_nth_target(
    targets: nat,
    edge: bool,
    round: Seq<(Asked, bool)>,
    at: int,
)
    requires
        is_round(targets, edge, round),
        0 <= at < round.len(),
    ensures
        round[at].0 is Peer ==> round[at].0 == Asked::Peer(at as nat) && at < targets,
        round[at].0 is Edge ==> edge && at == targets,
    decreases at,
{
    if at > 0 {
        the_nth_step_asks_the_nth_target(targets, edge, round, at - 1);
        assert(passes_on(targets, edge, round[at - 1], round[at]));
    }
}

/// The public edge is a last resort: by the time a round asks it, every target
/// was probed and none answered.
pub proof fn the_edge_is_asked_last(targets: nat, edge: bool, round: Seq<(Asked, bool)>, at: int)
    requires
        is_round(targets, edge, round),
        0 <= at < round.len(),
        round[at].0 is Edge,
    ensures
        at == targets,
        forall|i: int|
            0 <= i < targets ==> (#[trigger] round[i]).0 == Asked::Peer(i as nat) && !round[i].1,
{
    the_nth_step_asks_the_nth_target(targets, edge, round, at);
    assert forall|i: int| 0 <= i < targets implies (#[trigger] round[i]).0 == Asked::Peer(i as nat)
        && !round[i].1 by {
        the_nth_step_asks_the_nth_target(targets, edge, round, i);
        assert(passes_on(targets, edge, round[i], round[i + 1]));
    }
}

/// A run of consecutive observations: the history they all named, and how many
/// there were.
pub type Run = Option<(Seq<char>, nat)>;

/// The run after one more round. `seen` is the superseding history that the
/// public edge named in it, if it named one.
pub open spec fn noted(run: Run, seen: Option<Seq<char>>) -> Run {
    match seen {
        None => None,
        Some(h) => match run {
            Some((history, count)) if history == h => Some((h, count + 1)),
            _ => Some((h, 1)),
        },
    }
}

/// The run after these rounds, from the first.
pub open spec fn run_after(rounds: Seq<Option<Seq<char>>>) -> Run
    decreases rounds.len(),
{
    if rounds.len() == 0 {
        None
    } else {
        noted(run_after(rounds.drop_last()), rounds.last())
    }
}

/// A run of `n` is `n` rounds in a row, the last ones, that all named the same
/// history: a round that names another, or none, starts over.
pub proof fn a_run_is_consecutive(rounds: Seq<Option<Seq<char>>>)
    ensures
        run_after(rounds) matches Some((history, count)) ==> {
            &&& 1 <= count <= rounds.len()
            &&& forall|i: int|
                rounds.len() - count <= i < rounds.len() ==> #[trigger] rounds[i] == Some(history)
        },
    decreases rounds.len(),
{
    if rounds.len() > 0 {
        a_run_is_consecutive(rounds.drop_last());
        if let Some((history, count)) = run_after(rounds) {
            let before = rounds.drop_last();
            assert forall|i: int|
                rounds.len() - count <= i < rounds.len() implies #[trigger] rounds[i] == Some(
                history,
            ) by {
                if i < rounds.len() - 1 {
                    assert(before[i] == rounds[i]);
                }
            }
        }
    }
}

/// A daemon watching for a superseding history.
#[derive(Debug, Clone)]
pub struct Watch {
    run: Option<(String, u32)>,
}

impl Watch {
    /// The current run of public-edge observations.
    pub closed spec fn run(self) -> Run {
        match self.run {
            Some((h, n)) => Some((h@, n as nat)),
            None => None,
        }
    }

    /// Whether one more round can be counted.
    pub open spec fn countable(self) -> bool {
        self.run() matches Some((h, n)) ==> n < u32::MAX
    }

    pub fn new() -> (r: Watch)
        ensures
            r.run() is None,
    {
        Watch { run: None }
    }

    /// Forget every observation.
    pub fn forget_supersession(&mut self)
        ensures
            final(self).run() is None,
    {
        self.run = None;
    }

    /// Count one more consecutive observation of `observed`, and return how
    /// long the run is. Another history restarts it: three answers naming
    /// three histories corroborate nothing.
    pub fn note_supersession(&mut self, observed: &str) -> (r: u32)
        requires
            old(self).countable(),
        ensures
            final(self).run() == noted(old(self).run(), Some(observed@)),
            final(self).run() matches Some((h, n)) && n == r,
    {
        let count: u32 = match &self.run {
            Some((history, count)) => if text::same(history.as_str(), observed) {
                *count + 1
            } else {
                1
            },
            None => 1,
        };
        self.run = Some((observed.to_owned(), count));
        count
    }

    /// Whether a voter should look for a superseding history at all: not when
    /// the daemon is stopping already, and not while the voter is in contact
    /// with its cluster, which settles the question.
    pub fn begin(&mut self, stopping: bool, contact_stale: bool) -> (r: bool)
        ensures
            r == (!stopping && contact_stale),
            final(self).run() == if !stopping && !contact_stale {
                noted(old(self).run(), None)
            } else {
                old(self).run()
            },
    {
        if stopping {
            return false;
        }
        if !contact_stale {
            self.forget_supersession();
            return false;
        }
        true
    }

    /// Whom a round asks once the targets before `at` stayed silent. With
    /// nobody left to ask, nothing was observed.
    pub fn look(&mut self, targets: usize, at: usize, edge: bool) -> (r: Look)
        ensures
            r.asks() == after_silence(targets as nat, at as nat, edge),
            !(r is FailStop),
            final(self).run() == if r is Over {
                noted(old(self).run(), None)
            } else {
                old(self).run()
            },
    {
        if at < targets {
            Look::Probe(at)
        } else if edge {
            Look::Edge
        } else {
            self.forget_supersession();
            Look::Over
        }
    }

    /// The target at `at` was probed. Silence passes the question on; an
    /// answer settles the round.
    pub fn on_probe(
        &mut self,
        targets: &Vec<String>,
        at: usize,
        answer: Option<ProbeClusterResponse>,
        stamped: &[u8],
        edge: bool,
    ) -> (r: Look)
        requires
            at < targets@.len(),
        ensures
            match answer {
                None => {
                    &&& r.asks() == after_silence(targets@.len(), at as nat + 1, edge)
                    &&& !(r is FailStop)
                    &&& final(self).run() == if r is Over {
                        noted(old(self).run(), None)
                    } else {
                        old(self).run()
                    }
                },
                Some(a) => if text::hex_of(a.history_id@) == text::hex_of(stamped@) {
                    r is Over && final(self).run() is None
                } else {
                    &&& r matches Look::FailStop(m)
                    &&& m@ == supersession_text(
                        targets@[at as int]@,
                        machine_plane(),
                        text::hex_of(a.history_id@),
                        text::hex_of(stamped@),
                    )
                    &&& final(self).run() == old(self).run()
                },
            },
    {
        match answer {
            None => self.look(targets.len(), at + 1, edge),
            Some(answer) => match self.on_peer(
                targets[at].as_str(),
                answer.history_id.as_slice(),
                stamped,
            ) {
                Verdict::Over => Look::Over,
                Verdict::FailStop(message) => Look::FailStop(message),
            },
        }
    }

    /// A peer answered over the mutually authenticated plane. If it carries
    /// this replica's own history that wins outright; any other history is
    /// conclusive.
    pub fn on_peer(&mut self, target: &str, history: &[u8], stamped: &[u8]) -> (r: Verdict)
        ensures
            text::hex_of(history@) == text::hex_of(stamped@) ==> r is Over && final(self).run()
                is None,
            text::hex_of(history@) != text::hex_of(stamped@) ==> {
                &&& r matches Verdict::FailStop(m)
                &&& m@ == supersession_text(
                    target@,
                    machine_plane(),
                    text::hex_of(history@),
                    text::hex_of(stamped@),
                )
                &&& final(self).run() == old(self).run()
            },
    {
        let observed = text::hex(history);
        let own = text::hex(stamped);
        if text::same(observed.as_str(), own.as_str()) {
            self.forget_supersession();
            Verdict::Over
        } else {
            Verdict::FailStop(
                supersession_refusal(
                    target,
                    "the mutually authenticated machine plane",
                    observed.as_str(),
                    own.as_str(),
                ),
            )
        }
    }

    /// The superseding history a report of the public edge names, if any: one
    /// of a cluster of this name that is not this replica's own.
    pub open spec fn superseding(
        report: Option<EdgeReport>,
        cluster_id: Seq<char>,
        stamped: Seq<char>,
    ) -> Option<Seq<char>> {
        match report {
            Some(r) => match r.history_id {
                Some(h) if r.cluster_id@ == cluster_id && h@ != stamped => Some(h@),
                _ => None,
            },
            None => None,
        }
    }

    /// No peer answered; `report` is what the public edge said of itself, if
    /// there is an edge and it answered. The daemon stops only when the run of
    /// rounds naming one superseding history reaches its count.
    pub fn on_edge(
        &mut self,
        endpoint: &str,
        report: Option<EdgeReport>,
        cluster_id: &str,
        stamped: &[u8],
    ) -> (r: Verdict)
        requires
            old(self).countable(),
        ensures
            ({
                let seen = Self::superseding(report, cluster_id@, text::hex_of(stamped@));
                &&& final(self).run() == noted(old(self).run(), seen)
                &&& r is FailStop <==> (final(self).run() matches Some((h, n)) && n
                    >= SUPERSESSION_ROUNDS)
                &&& r matches Verdict::FailStop(m) ==> m@ == supersession_text(
                    endpoint@,
                    public_plane(),
                    seen->0,
                    text::hex_of(stamped@),
                )
            }),
    {
        let own = text::hex(stamped);
        let observed = match report {
            Some(answer) => match answer.history_id {
                Some(history) => if text::same(answer.cluster_id.as_str(), cluster_id)
                    && !text::same(history.as_str(), own.as_str()) {
                    Some(history)
                } else {
                    None
                },
                None => None,
            },
            None => None,
        };
        match observed {
            None => {
                self.forget_supersession();
                Verdict::Over
            },
            Some(history) => {
                let seen: u32 = self.note_supersession(history.as_str());
                if seen < SUPERSESSION_ROUNDS {
                    Verdict::Over
                } else {
                    Verdict::FailStop(
                        supersession_refusal(
                            endpoint,
                            "the cluster's public client edge, on three consecutive rounds",
                            history.as_str(),
                            own.as_str(),
                        ),
                    )
                }
            },
        }
    }
}

/// The public edge stops a daemon only after it named the same superseding
/// history on each of the last three rounds.
pub proof fn the_edge_needs_three_rounds(rounds: Seq<Option<Seq<char>>>)
    requires
        run_after(rounds) matches Some((h, n)) && n >= SUPERSESSION_ROUNDS,
    ensures
        rounds.len() >= 3,
        rounds[rounds.len() - 1] is Some,
        rounds[rounds.len() - 1] == rounds[rounds.len() - 2],
        rounds[rounds.len() - 2] == rounds[rounds.len() - 3],
{
    a_run_is_consecutive(rounds);
}

/// A round that observes the replica's own history, or nothing, starts the
/// count over.
pub proof fn any_other_round_starts_over(rounds: Seq<Option<Seq<char>>>)
    ensures
        run_after(rounds.push(None)) is None,
{
    assert(rounds.push(None).drop_last() =~= rounds);
}

// ---------------------------------------------------------------------------
// Where to look
// ---------------------------------------------------------------------------

/// `targets`, then every candidate that is not there yet and is not this
/// daemon.
pub open spec fn widened(
    targets: Seq<Seq<char>>,
    candidates: Seq<Seq<char>>,
    own: Seq<char>,
) -> Seq<Seq<char>>
    decreases candidates.len(),
{
    if candidates.len() == 0 {
        targets
    } else {
        let before = widened(targets, candidates.drop_last(), own);
        if candidates.last() != own {
            leader::push_new(before, candidates.last())
        } else {
            before
        }
    }
}

/// Everyone membership names, plus whatever discovery names. Discovery is
/// additive here: a voter out of contact is exactly the case where membership
/// may name only addresses that no longer exist.
pub fn widen_targets(targets: Vec<String>, candidates: &Vec<String>, own: &str) -> (r: Vec<String>)
    ensures
        text::views(r@) == widened(text::views(targets@), text::views(candidates@), own@),
{
    let ghost start = text::views(targets@);
    let ghost all = text::views(candidates@);
    let mut out = targets;
    let n: usize = candidates.len();
    let mut i: usize = 0;
    assert(all.subrange(0, 0) =~= Seq::empty());
    while i < n
        invariant
            n == candidates@.len(),
            i <= n,
            all == text::views(candidates@),
            text::views(out@) == widened(start, all.subrange(0, i as int), own@),
        decreases n - i,
    {
        let c = &candidates[i];
        assert(all.subrange(0, i + 1).drop_last() =~= all.subrange(0, i as int));
        assert(all.subrange(0, i + 1).last() == c@);
        if !text::same(c.as_str(), own) && !text::listed(&out, c.as_str()) {
            let ghost before = out@;
            out.push(c.clone());
            assert(text::views(out@) =~= text::views(before).push(c@));
        }
        i = i + 1;
    }
    assert(all.subrange(0, n as int) =~= all);
    out
}

/// `s` without the slashes at its end.
pub open spec fn without_trailing_slashes(s: Seq<char>) -> Seq<char>
    decreases s.len(),
{
    if s.len() > 0 && s.last() == '/' {
        without_trailing_slashes(s.drop_last())
    } else {
        s
    }
}

/// The cluster's public endpoint, as a second witness of its history.
#[derive(Debug, Clone)]
pub struct PublicEdge {
    pub endpoint: String,
    pub insecure: bool,
}

impl PublicEdge {
    /// The edge that an enrollment section names; none where there is no
    /// section, or where its endpoint may not be dialled.
    pub fn from_config(section: &Option<EnrollmentConfig>) -> (r: Option<PublicEdge>)
        ensures
            r is Some <==> (section matches Some(s) && s.endpoint_trusted()),
            r matches Some(edge) ==> {
                &&& edge.endpoint@ == without_trailing_slashes(section->0.endpoint@)
                &&& edge.insecure == section->0.insecure
            },
    {
        let section = match section {
            Some(section) => section,
            None => {
                return None;
            },
        };
        if !text::starts_with(section.endpoint.as_str(), "https://") && !section.insecure {
            return None;
        }
        Some(
            PublicEdge {
                endpoint: trim_slashes(section.endpoint.as_str()),
                insecure: section.insecure,
            },
        )
    }

    /// The address of the edge's readiness document.
    pub fn readyz_url(&self) -> (r: String)
        ensures
            r@ == self.endpoint@ + "/readyz"@,
    {
        self.endpoint.clone().concat("/readyz")
    }
}

fn trim_slashes(endpoint: &str) -> (r: String)
    ensures
        r@ == without_trailing_slashes(endpoint@),
{
    let cs = text::chars_of(endpoint);
    let n: usize = cs.len();
    let mut end: usize = n;
    assert(endpoint@.subrange(0, n as int) =~= endpoint@);
    while end > 0 && cs[end - 1] == '/'
        invariant
            cs@ == endpoint@,
            n == endpoint@.len(),
            end <= n,
            without_trailing_slashes(endpoint@) == without_trailing_slashes(
                endpoint@.subrange(0, end as int),
            ),
        decreases end,
    {
        assert(endpoint@.subrange(0, end as int).drop_last() =~= endpoint@.subrange(0, end - 1));
        end = end - 1;
    }
    endpoint.substring_char(0, end).to_owned()
}

// ---------------------------------------------------------------------------
// What an observation does
// ---------------------------------------------------------------------------

/// The first reason to stop is the one that is kept, and every trigger drains.
pub proof fn the_first_reason_stays(stop: &mut FailStop, reason: String)
    requires
        call_ensures(FailStop::trigger, (stop, reason), ()),
    ensures
        final(stop).drains(),
        old(stop).why() is Some ==> final(stop).why() == old(stop).why(),
        old(stop).why() is None ==> final(stop).why() == Some(reason@),
{
}

/// A round is begun exactly by a voter that is out of contact and not stopping
/// already; contact forgets what was counted, a stop leaves it alone.
pub proof fn contact_settles_the_question(
    watch: &mut Watch,
    stopping: bool,
    contact_stale: bool,
    r: bool,
)
    requires
        call_ensures(Watch::begin, (watch, stopping, contact_stale), r),
    ensures
        r <==> contact_stale && !stopping,
        !stopping && !contact_stale ==> final(watch).run() is None,
        stopping || contact_stale ==> final(watch).run() == old(watch).run(),
{
}

/// A round asks each target in turn, then the edge where there is one, and
/// only a round that asks nobody more starts the count over.
pub proof fn a_round_asks_every_target_before_the_edge(
    watch: &mut Watch,
    targets: usize,
    at: usize,
    edge: bool,
    r: Look,
)
    requires
        call_ensures(Watch::look, (watch, targets, at, edge), r),
    ensures
        at < targets ==> r == Look::Probe(at) && final(watch).run() == old(watch).run(),
        at >= targets && edge ==> r is Edge && final(watch).run() == old(watch).run(),
        at >= targets && !edge ==> r is Over && final(watch).run() is None,
{
    assert(r.asks() == after_silence(targets as nat, at as nat, edge));
}

/// One answer over the machine plane decides the round: this replica's own
/// history ends it and forgets the count, any other stops the daemon at once.
pub proof fn a_peers_answer_is_conclusive(
    watch: &mut Watch,
    target: &str,
    history: &[u8],
    stamped: &[u8],
    r: Verdict,
)
    requires
        call_ensures(Watch::on_peer, (watch, target, history, stamped), r),
    ensures
        history@ == stamped@ ==> r is Over && final(watch).run() is None,
        history@ != stamped@ ==> r is FailStop,
{
    text::hex_tells_bytes_apart(history@, stamped@);
}

/// A probed target that answers decides the round as any peer does; one that
/// stays silent passes the question to the next, or to the edge after the
/// last.
pub proof fn silence_passes_the_question_on(
    watch: &mut Watch,
    targets: Vec<String>,
    at: usize,
    answer: Option<ProbeClusterResponse>,
    stamped: &[u8],
    edge: bool,
    r: Look,
)
    requires
        call_ensures(Watch::on_probe, (watch, &targets, at, answer, stamped, edge), r),
        at < targets@.len(),
    ensures
        answer matches Some(a) ==> (r is FailStop <==> a.history_id@ != stamped@),
        answer matches Some(a) ==> (r is Over <==> a.history_id@ == stamped@),
        answer is None && at + 1 < targets@.len() ==> (r matches Look::Probe(next) && next == at
            + 1),
        answer is None && at + 1 == targets@.len() && edge ==> r is Edge,
        answer is None && at + 1 == targets@.len() && !edge ==> r is Over && final(watch).run() is None,
{
    if let Some(a) = answer {
        text::hex_tells_bytes_apart(a.history_id@, stamped@);
    } else {
        assert(r.asks() == after_silence(targets@.len(), at as nat + 1, edge));
    }
}

/// The edge stops the daemon exactly when it names, for a cluster of this
/// name, another history that the two rounds before named too; it never does
/// on its own word, and anything else it says starts the count over.
pub proof fn the_edge_stops_on_the_third_round(
    watch: &mut Watch,
    endpoint: &str,
    report: Option<EdgeReport>,
    cluster_id: &str,
    stamped: &[u8],
    r: Verdict,
)
    requires
        call_ensures(Watch::on_edge, (watch, endpoint, report, cluster_id, stamped), r),
    ensures
        r is FailStop ==> report is Some && report->0.cluster_id@ == cluster_id@
            && report->0.history_id is Some && report->0.history_id->0@ != text::hex_of(stamped@),
        r is FailStop <==> report is Some && report->0.cluster_id@ == cluster_id@
            && report->0.history_id is Some && report->0.history_id->0@ != text::hex_of(stamped@)
            && (old(watch).run() matches Some((h, n)) && h == report->0.history_id->0@ && n >= 2),
        report is None || report->0.cluster_id@ != cluster_id@ || report->0.history_id is None
            || report->0.history_id->0@ == text::hex_of(stamped@) ==> final(watch).run() is None,
        report is Some && report->0.cluster_id@ == cluster_id@ && report->0.history_id is Some
            && report->0.history_id->0@ != text::hex_of(stamped@) && (old(watch).run() is None
            || (old(watch).run()->0).0 != report->0.history_id->0@) ==> final(watch).run() == Some(
            (report->0.history_id->0@, 1nat),
        ),
        report is Some && report->0.cluster_id@ == cluster_id@ && report->0.history_id is Some
            && report->0.history_id->0@ != text::hex_of(stamped@) && (old(watch).run() is Some
            && (old(watch).run()->0).0 == report->0.history_id->0@) ==> final(watch).run() == Some(
            (report->0.history_id->0@, (old(watch).run()->0).1 + 1),
        ),
{
}

/// Widening keeps every target, in place, adds every other candidate, adds
/// nobody else, and never adds this daemon or an address twice.
pub proof fn widening_only_adds(
    targets: Vec<String>,
    candidates: Vec<String>,
    own: &str,
    x: Seq<char>,
    r: Vec<String>,
)
    requires
        call_ensures(widen_targets, (targets, &candidates, own), r),
    ensures
        text::views(targets@).is_prefix_of(text::views(r@)),
        text::views(r@).contains(x) <==> text::views(targets@).contains(x) || (text::views(
            candidates@,
        ).contains(x) && x != own@),
        text::views(targets@).no_duplicates() ==> text::views(r@).no_duplicates(),
{
    widened_holds(text::views(targets@), text::views(candidates@), own@, x);
}

proof fn widened_holds(
    targets: Seq<Seq<char>>,
    candidates: Seq<Seq<char>>,
    own: Seq<char>,
    x: Seq<char>,
)
    ensures
        targets.is_prefix_of(widened(targets, candidates, own)),
        widened(targets, candidates, own).contains(x) <==> targets.contains(x) || (
        candidates.contains(x) && x != own),
        targets.no_duplicates() ==> widened(targets, candidates, own).no_duplicates(),
    decreases candidates.len(),
{
    if candidates.len() > 0 {
        let rest = candidates.drop_last();
        let last = candidates.last();
        widened_holds(targets, rest, own, x);
        let before = widened(targets, rest, own);
        let all = widened(targets, candidates, own);
        assert(candidates =~= rest.push(last));
        if rest.contains(x) {
            let i = choose|i: int| 0 <= i < rest.len() && rest[i] == x;
            assert(candidates[i] == x);
        }
        if candidates.contains(x) && x != last {
            let i = choose|i: int| 0 <= i < candidates.len() && candidates[i] == x;
            assert(rest[i] == x);
        }
        assert(candidates[candidates.len() - 1] == last);
        if last != own && !before.contains(last) {
            assert(all == before.push(last));
            assert(all[before.len() as int] == last);
            if before.contains(x) {
                let i = choose|i: int| 0 <= i < before.len() && before[i] == x;
                assert(all[i] == x);
            }
            if all.contains(x) && x != last {
                let i = choose|i: int| 0 <= i < all.len() && all[i] == x;
                assert(before[i] == x);
            }
        }
    }
}

proof fn trimming_keeps_the_front(s: Seq<char>)
    ensures
        without_trailing_slashes(s).is_prefix_of(s),
        without_trailing_slashes(s).len() > 0 ==> without_trailing_slashes(s).last() != '/',
        forall|i: int|
            without_trailing_slashes(s).len() <= i < s.len() ==> #[trigger] s[i] == '/',
    decreases s.len(),
{
    if s.len() > 0 && s.last() == '/' {
        let rest = s.drop_last();
        trimming_keeps_the_front(rest);
        assert forall|i: int|
            without_trailing_slashes(s).len() <= i < s.len() implies #[trigger] s[i] == '/' by {
            if i < rest.len() {
                assert(rest[i] == s[i]);
            }
        }
    }
}

/// There is an edge exactly where an enrollment section names an endpoint that
/// may be dialled: over https, or over anything where insecurity was asked
/// for. It is the endpoint but for the slashes at its end, all of them.
pub proof fn the_edge_is_where_enrollment_goes(
    section: Option<EnrollmentConfig>,
    r: Option<PublicEdge>,
)
    requires
        call_ensures(PublicEdge::from_config, (&section,), r),
    ensures
        r is Some <==> section is Some && (section->0.insecure || "https://"@.is_prefix_of(
            section->0.endpoint@,
        )),
        r matches Some(edge) ==> {
            &&& edge.insecure == section->0.insecure
            &&& edge.endpoint@.is_prefix_of(section->0.endpoint@)
            &&& edge.endpoint@.len() > 0 ==> edge.endpoint@.last() != '/'
            &&& forall|i: int|
                edge.endpoint@.len() <= i < section->0.endpoint@.len() ==> (
                #[trigger] section->0.endpoint@[i]) == '/'
        },
{
    if let Some(s) = section {
        trimming_keeps_the_front(s.endpoint@);
        text::beginning_is_a_prefix(s.endpoint@, "https://"@);
    }
}

/// The readiness document is asked for at the edge's own endpoint.
pub proof fn the_readiness_document_is_at_readyz(edge: PublicEdge, r: String)
    requires
        call_ensures(PublicEdge::readyz_url, (&edge,), r),
    ensures
        r@ == edge.endpoint@ + "/readyz"@,
{
}

} // verus!
