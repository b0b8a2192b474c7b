//! The phase of a daemon, and what it answers in each.

use vstd::prelude::*;
use vstd::string::*;

use crate::cluster::{ClusterSummary, MemberSummary};
use crate::convergence::join::Notice;
use crate::formation::startup::FormationMarks;
use crate::seats;
use crate::text;
use crate::text::signed_text;
use crate::time::Duration;
use crate::wire::{copy_bytes, ProbeClusterResponse, ProbeVoter};

verus! {

/// The pieces of a formed replica the status surfaces read.
#[derive(Debug, Clone)]
pub struct FormedReplica {
    pub history_id: Vec<u8>,
    pub instance_uuid: Vec<u8>,
    pub summary: ClusterSummary,
    pub applied_index: u64,
}

/// What a daemon is currently able to serve.
#[derive(Debug, Clone)]
pub enum Phase {
    /// No cluster yet.
    Waiting,
    /// A formation was begun here and never completed.
    Failed { intent_at_us: i64 },
    /// A formed cluster: everything is served.
    Formed(FormedReplica),
    /// The replica's history was superseded: terminal, and this is why.
    Superseded { message: String },
}

/// The phase as readiness reports it.
#[derive(Debug, Clone, Copy, PartialEq, Eq, Structural)]
pub enum ReadyzPhase {
    Waiting,
    FormationFailed,
    Learner,
    Voter,
    HistorySuperseded,
}

/// One voter, as readiness reports it.
#[derive(Debug, Clone)]
pub struct ReadyzVoter {
    pub node_id: u64,
    pub address: String,
}

/// The readiness document.
#[derive(Debug, Clone)]
pub struct ReadyzReport {
    pub cluster_id: String,
    pub history_id: Option<String>,
    pub node_id: Option<u64>,
    pub instance_uuid: Option<String>,
    pub phase: ReadyzPhase,
    pub leader: Option<u64>,
    pub is_leader: bool,
    pub applied_index: u64,
    pub committed_index: u64,
    pub replication_lag: u64,
    pub leader_contact_stale: bool,
    pub voters: Vec<ReadyzVoter>,
    pub cluster_size: usize,
    pub reason: Option<String>,
    /// Why promotion is held up, where it is; no operator is needed.
    pub promotion_hold: Option<String>,
    /// Why admission was last refused; an operator should look.
    pub last_admission_refusal: Option<String>,
}

/// The text of what may be absent.
pub open spec fn noted(notice: Option<String>) -> Option<Seq<char>> {
    match notice {
        Some(m) => Some(m@),
        None => None,
    }
}

fn copy_notice(notice: &Option<String>) -> (r: Option<String>)
    ensures
        noted(r) == noted(*notice),
{
    match notice {
        Some(m) => Some(m.clone()),
        None => None,
    }
}

/// Whether a report is that of a daemon that serves no cluster.
pub open spec fn reports_unformed(
    r: ReadyzReport,
    cluster: Seq<char>,
    phase: ReadyzPhase,
    size: usize,
    reason: Seq<char>,
) -> bool {
    &&& r.cluster_id@ == cluster
    &&& r.phase == phase
    &&& r.cluster_size == size
    &&& r.reason matches Some(t) && t@ == reason
    &&& r.history_id is None
    &&& r.node_id is None
    &&& r.instance_uuid is None
    &&& r.leader is None
    &&& !r.is_leader
    &&& r.applied_index == 0
    &&& r.committed_index == 0
    &&& r.replication_lag == 0
    &&& !r.leader_contact_stale
    &&& r.voters@.len() == 0
}

impl ReadyzReport {
    /// The report of a daemon that serves no cluster.
    pub fn unformed(cluster: String, phase: ReadyzPhase, size: usize, reason: String) -> (r:
        ReadyzReport)
        ensures
            reports_unformed(r, cluster@, phase, size, reason@),
            r.promotion_hold is None,
            r.last_admission_refusal is None,
    {
        ReadyzReport {
            cluster_id: cluster,
            history_id: None,
            node_id: None,
            instance_uuid: None,
            phase,
            leader: None,
            is_leader: false,
            applied_index: 0,
            committed_index: 0,
            replication_lag: 0,
            leader_contact_stale: false,
            voters: Vec::new(),
            cluster_size: size,
            reason: Some(reason),
            promotion_hold: None,
            last_admission_refusal: None,
        }
    }
}

/// The instant of an intent: as shown, or in bare microseconds.
pub open spec fn instant_text(intent_at_us: i64, shown: Option<Seq<char>>) -> Seq<char> {
    match shown {
        Some(s) => s,
        None => text::signed_decimal(intent_at_us as int) + "us"@,
    }
}

/// What a daemon says of a formation that never completed.
pub open spec fn failed_text(when: Seq<char>) -> Seq<char> {
    "formation started at "@ + when
        + " never completed: the data directory records a formation intent with no "@
        + "formation_complete marker, so this node's cluster is partial and is never resumed "@
        + "(ADR 0037 §3). No peer can have joined it — the external surface stayed closed. "@
        + "Recovery: stop the daemon, wipe the data directory, restart (it parks), and re-run "@
        + "`coppice coordinator init`."@
}

/// What a daemon says of a formation that never completed, and the one
/// documented recovery. `shown` is the instant as a calendar writes it, when
/// it can.
pub fn failed_diagnostic(intent_at_us: i64, shown: &Option<String>) -> (r: String)
    ensures
        r@ == failed_text(
            instant_text(
                intent_at_us,
                match *shown {
                    Some(s) => Some(s@),
                    None => None,
                },
            ),
        ),
{
    let when = match shown {
        Some(s) => s.clone(),
        None => signed_text(intent_at_us).concat("us"),
    };
    "formation started at ".to_owned().concat(when.as_str()).concat(
        " never completed: the data directory records a formation intent with no ",
    ).concat(
        "formation_complete marker, so this node's cluster is partial and is never resumed ",
    ).concat(
        "(ADR 0037 §3). No peer can have joined it — the external surface stayed closed. ",
    ).concat(
        "Recovery: stop the daemon, wipe the data directory, restart (it parks), and re-run ",
    ).concat("`coppice coordinator init`.")
}

/// Why a parked daemon is not ready.
pub open spec fn waiting_text() -> Seq<char> {
    "no cluster formed on this node and none found: run `coppice coordinator init` on one "@
        + "daemon to form the cluster (ADR 0037 §3)"@
}

/// Why a replica cut off from its cluster is not ready.
pub open spec fn cut_off_text() -> Seq<char> {
    "this replica has lost contact with its cluster: its local indexes are current only "@
        + "against a frozen frontier (ADR 0037 §9)"@
}

/// How many members vote.
pub open spec fn voter_count(members: Seq<MemberSummary>) -> nat
    decreases members.len(),
{
    if members.len() == 0 {
        0
    } else {
        voter_count(members.drop_last()) + (if members.last().voter {
            1nat
        } else {
            0nat
        })
    }
}

/// Whether the answering replica votes.
pub open spec fn local_votes(s: ClusterSummary) -> bool {
    exists|i: int|
        0 <= i < s.members@.len() && (#[trigger] s.members@[i]).id == s.local_id
            && s.members@[i].voter
}

/// Whether a replica lost contact with its cluster. A leader proves contact by
/// a fresh acknowledgment of its quorum, a follower by still knowing a leader,
/// and a sole voter has no one to lose contact with.
pub open spec fn contact_lost(s: ClusterSummary, staleness: nat) -> bool {
    if voter_count(s.members@) <= 1 {
        false
    } else if s.leads() {
        match s.millis_since_quorum_ack {
            Some(ms) => ms * 1_000_000 > staleness,
            None => true,
        }
    } else {
        s.leader is None
    }
}

/// How far the applied index trails the committed one.
pub open spec fn trailing(committed: u64, applied: u64) -> u64 {
    if applied >= committed {
        0
    } else {
        (committed - applied) as u64
    }
}

/// The seats that voters stand for.
pub open spec fn voter_views(voters: Seq<ReadyzVoter>) -> Seq<seats::Seat> {
    voters.map_values(|v: ReadyzVoter| (v.node_id, v.address@))
}

/// The seats that probed voters stand for.
pub open spec fn probe_views(voters: Seq<ProbeVoter>) -> Seq<seats::Seat> {
    voters.map_values(|v: ProbeVoter| (v.node_id, v.address@))
}

/// Why a formed replica is not ready, if it is not.
pub open spec fn formed_reason(s: ClusterSummary, staleness: nat) -> Option<Seq<char>> {
    if contact_lost(s, staleness) {
        Some(cut_off_text())
    } else if !local_votes(s) {
        Some("this replica is not a voter"@)
    } else {
        None
    }
}

/// Whether a report is that of this formed replica.
pub open spec fn reports_formed(
    r: ReadyzReport,
    cluster: Seq<char>,
    size: usize,
    staleness: nat,
    f: FormedReplica,
) -> bool {
    let s = f.summary;
    &&& r.cluster_id@ == cluster
    &&& r.history_id matches Some(h) && h@ == text::hex_of(f.history_id@)
    &&& r.node_id == Some(s.local_id)
    &&& r.instance_uuid matches Some(u) && u@ == text::hex_of(f.instance_uuid@)
    &&& r.phase == (if local_votes(s) {
        ReadyzPhase::Voter
    } else {
        ReadyzPhase::Learner
    })
    &&& r.leader == s.leader
    &&& r.is_leader == s.leads()
    &&& r.applied_index == f.applied_index
    &&& r.committed_index == s.known_committed
    &&& r.replication_lag == trailing(s.known_committed, f.applied_index)
    &&& r.leader_contact_stale == contact_lost(s, staleness)
    &&& voter_views(r.voters@) == seats::settled(seats::voter_seats_of(s.members@))
    &&& r.cluster_size == size
    &&& match formed_reason(s, staleness) {
        Some(t) => r.reason matches Some(m) && m@ == t,
        None => r.reason is None,
    }
}

fn count_voters(members: &Vec<MemberSummary>) -> (r: usize)
    ensures
        r == voter_count(members@),
{
    let n: usize = members.len();
    let mut i: usize = 0;
    let mut count: usize = 0;
    while i < n
        invariant
            n == members@.len(),
            i <= n,
            count <= i,
            count == voter_count(members@.subrange(0, i as int)),
        decreases n - i,
    {
        assert(members@.subrange(0, i + 1).drop_last() =~= members@.subrange(0, i as int));
        if members[i].voter {
            count = count + 1;
        }
        i = i + 1;
    }
    assert(members@.subrange(0, n as int) =~= members@);
    count
}

fn votes_locally(s: &ClusterSummary) -> (r: bool)
    ensures
        r == local_votes(*s),
{
    let mut i: usize = 0;
    while i < s.members.len()
        invariant
            i <= s.members@.len(),
            forall|j: int|
                0 <= j < i ==> !((#[trigger] s.members@[j]).id == s.local_id
                    && s.members@[j].voter),
        decreases s.members@.len() - i,
    {
        if s.members[i].id == s.local_id && s.members[i].voter {
            return true;
        }
        i = i + 1;
    }
    false
}

fn lost_contact(s: &ClusterSummary, staleness: &Duration) -> (r: bool)
    ensures
        r == contact_lost(*s, staleness@),
{
    if count_voters(&s.members) <= 1 {
        false
    } else if s.is_leader() {
        match s.millis_since_quorum_ack {
            Some(ms) => !Duration::from_millis(ms).at_most(staleness),
            None => true,
        }
    } else {
        s.leader.is_none()
    }
}

/// Whether a report is that of this phase.
pub open spec fn reports_phase(r: ReadyzReport, at: PhaseState, shown: Option<Seq<char>>) -> bool {
    match at.phase {
        Phase::Waiting => reports_unformed(
            r,
            at.cluster_id@,
            ReadyzPhase::Waiting,
            at.cluster_size,
            waiting_text(),
        ),
        Phase::Failed { intent_at_us } => reports_unformed(
            r,
            at.cluster_id@,
            ReadyzPhase::FormationFailed,
            at.cluster_size,
            failed_text(instant_text(intent_at_us, shown)),
        ),
        Phase::Formed(f) => reports_formed(
            r,
            at.cluster_id@,
            at.cluster_size,
            at.contact_staleness@,
            f,
        ),
        Phase::Superseded { message } => reports_unformed(
            r,
            at.cluster_id@,
            ReadyzPhase::HistorySuperseded,
            at.cluster_size,
            message@,
        ),
    }
}

/// What a probe is answered in each phase.
pub open spec fn states_probe(r: ProbeClusterResponse, at: PhaseState) -> bool {
    &&& r.cluster_id@ == at.cluster_id@
    &&& match at.phase {
        Phase::Formed(f) => {
            &&& r.history_id@ == f.history_id@
            &&& r.initialized
            &&& r.node_id == Some(f.summary.local_id)
            &&& r.leader_hint == f.summary.leader
            &&& probe_views(r.voters@) == seats::settled(
                seats::voter_seats_of(f.summary.members@),
            )
        },
        _ => {
            &&& r.history_id@.len() == 0
            &&& !r.initialized
            &&& r.node_id is None
            &&& r.leader_hint is None
            &&& r.voters@.len() == 0
        },
    }
}

/// A daemon's phase, and what it needs to answer from it.
#[derive(Debug, Clone)]
pub struct PhaseState {
    pub cluster_id: String,
    pub cluster_size: usize,
    /// How stale a leader's quorum acknowledgment may be before this replica
    /// stops reporting itself ready.
    pub contact_staleness: Duration,
    pub phase: Phase,
    /// What convergence last ran into.
    pub promotion_hold: Option<String>,
    pub last_admission_refusal: Option<String>,
}

impl PhaseState {
    /// A daemon that has not formed: parked, or stopped by a formation that
    /// never completed.
    pub fn unformed(
        cluster_id: String,
        cluster_size: usize,
        contact_staleness: Duration,
        marks: FormationMarks,
    ) -> (r: PhaseState)
        ensures
            r.cluster_id == cluster_id,
            r.cluster_size == cluster_size,
            r.contact_staleness == contact_staleness,
            r.phase == (if marks.partial() {
                Phase::Failed { intent_at_us: marks.intent_at_us->0 }
            } else {
                Phase::Waiting
            }),
            r.promotion_hold is None,
            r.last_admission_refusal is None,
    {
        let phase = match marks.intent_at_us {
            Some(intent_at_us) => {
                if marks.complete_at_us.is_none() {
                    Phase::Failed { intent_at_us }
                } else {
                    Phase::Waiting
                }
            },
            None => Phase::Waiting,
        };
        PhaseState {
            cluster_id,
            cluster_size,
            contact_staleness,
            phase,
            promotion_hold: None,
            last_admission_refusal: None,
        }
    }

    /// Publish a formed replica, or how a formed replica now stands. A
    /// superseded one is past that.
    pub fn publish_formed(&mut self, replica: FormedReplica)
        ensures
            old(self).phase is Superseded ==> *final(self) == *old(self),
            !(old(self).phase is Superseded) ==> *final(self) == (PhaseState {
                phase: Phase::Formed(replica),
                ..*old(self)
            }),
    {
        if let Phase::Superseded { .. } = &self.phase {
            return;
        }
        self.phase = Phase::Formed(replica);
    }

    /// Publish that a formation begun here died after its intent was stamped.
    pub fn publish_failed(&mut self, intent_at_us: i64)
        ensures
            old(self).phase is Superseded ==> *final(self) == *old(self),
            !(old(self).phase is Superseded) ==> *final(self) == (PhaseState {
                phase: Phase::Failed { intent_at_us },
                ..*old(self)
            }),
    {
        if let Phase::Superseded { .. } = &self.phase {
            return;
        }
        self.phase = Phase::Failed { intent_at_us };
    }

    /// Publish that this replica's history was superseded, and why. There is
    /// no way back from it: whatever is published later changes nothing.
    pub fn publish_superseded(&mut self, message: String)
        ensures
            old(self).phase is Superseded ==> *final(self) == *old(self),
            !(old(self).phase is Superseded) ==> *final(self) == (PhaseState {
                phase: Phase::Superseded { message },
                ..*old(self)
            }),
    {
        if let Phase::Superseded { .. } = &self.phase {
            return;
        }
        self.phase = Phase::Superseded { message };
    }

    /// Take down that promotion is held up.
    pub fn record_promotion_hold(&mut self, message: String)
        ensures
            *final(self) == (PhaseState { promotion_hold: Some(message), ..*old(self) }),
    {
        self.promotion_hold = Some(message);
    }

    /// Take down that admission was refused.
    pub fn record_admission_refusal(&mut self, message: String)
        ensures
            *final(self) == (PhaseState { last_admission_refusal: Some(message), ..*old(self) }),
    {
        self.last_admission_refusal = Some(message);
    }

    /// Nothing is pending any more: what was taken down would read as a live
    /// problem.
    pub fn clear_convergence_notices(&mut self)
        ensures
            *final(self) == (PhaseState {
                promotion_hold: None,
                last_admission_refusal: None,
                ..*old(self)
            }),
    {
        self.promotion_hold = None;
        self.last_admission_refusal = None;
    }

    /// Take down what a tick of convergence leaves.
    pub fn note(&mut self, notice: Notice)
        ensures
            *final(self) == (match notice {
                Notice::Keep => *old(self),
                Notice::Clear => (PhaseState {
                    promotion_hold: None,
                    last_admission_refusal: None,
                    ..*old(self)
                }),
                Notice::PromotionHold(m) => (PhaseState { promotion_hold: Some(m), ..*old(self) }),
                Notice::AdmissionRefusal(m) => (PhaseState {
                    last_admission_refusal: Some(m),
                    ..*old(self)
                }),
            }),
    {
        match notice {
            Notice::Keep => {},
            Notice::Clear => self.clear_convergence_notices(),
            Notice::PromotionHold(message) => self.record_promotion_hold(message),
            Notice::AdmissionRefusal(message) => self.record_admission_refusal(message),
        }
    }

    /// Whether this daemon serves a formed cluster.
    pub fn is_formed(&self) -> (r: bool)
        ensures
            r == (self.phase is Formed),
    {
        match &self.phase {
            Phase::Formed(_) => true,
            _ => false,
        }
    }

    /// The instant of the intent, when this daemon is stopped by it.
    pub fn failed_at(&self) -> (r: Option<i64>)
        ensures
            r == (match self.phase {
                Phase::Failed { intent_at_us } => Some(intent_at_us),
                _ => None,
            }),
    {
        match &self.phase {
            Phase::Failed { intent_at_us } => Some(*intent_at_us),
            _ => None,
        }
    }

    pub fn cluster_id(&self) -> (r: &str)
        ensures
            r@ == self.cluster_id@,
    {
        self.cluster_id.as_str()
    }

    /// The readiness document. `shown` is the instant of a dangling intent as a
    /// calendar writes it, when it can.
    pub fn readyz(&self, shown: &Option<String>) -> (r: ReadyzReport)
        ensures
            reports_phase(r, *self, noted(*shown)),
            noted(r.promotion_hold) == noted(self.promotion_hold),
            noted(r.last_admission_refusal) == noted(self.last_admission_refusal),
    {
        let mut report = self.phase_report(shown);
        report.promotion_hold = copy_notice(&self.promotion_hold);
        report.last_admission_refusal = copy_notice(&self.last_admission_refusal);
        report
    }

    /// The readiness document without the notices.
    fn phase_report(&self, shown: &Option<String>) -> (r: ReadyzReport)
        ensures
            reports_phase(r, *self, noted(*shown)),
    {
        let formed = match &self.phase {
            Phase::Waiting => return ReadyzReport::unformed(
                self.cluster_id.clone(),
                ReadyzPhase::Waiting,
                self.cluster_size,
                "no cluster formed on this node and none found: run `coppice coordinator init` on one ".to_owned().concat(
                    "daemon to form the cluster (ADR 0037 §3)",
                ),
            ),
            Phase::Failed { intent_at_us } => return ReadyzReport::unformed(
                self.cluster_id.clone(),
                ReadyzPhase::FormationFailed,
                self.cluster_size,
                failed_diagnostic(*intent_at_us, shown),
            ),
            Phase::Superseded { message } => return ReadyzReport::unformed(
                self.cluster_id.clone(),
                ReadyzPhase::HistorySuperseded,
                self.cluster_size,
                message.clone(),
            ),
            Phase::Formed(formed) => formed,
        };
        let s = &formed.summary;
        let votes = votes_locally(s);
        let stale = lost_contact(s, &self.contact_staleness);
        let entries = seats::settle(seats::voter_seats(&s.members));
        let mut voters: Vec<ReadyzVoter> = Vec::new();
        let mut i: usize = 0;
        while i < entries.len()
            invariant
                i <= entries@.len(),
                voter_views(voters@) =~= seats::entries(entries@).subrange(0, i as int),
            decreases entries@.len() - i,
        {
            let v = ReadyzVoter { node_id: entries[i].0, address: entries[i].1.clone() };
            assert(voter_views(voters@.push(v)) =~= voter_views(voters@).push(
                (v.node_id, v.address@),
            ));
            voters.push(v);
            i = i + 1;
        }
        assert(voter_views(voters@) =~= seats::entries(entries@));
        let reason = if stale {
            Some(
                "this replica has lost contact with its cluster: its local indexes are current only ".to_owned().concat(
                    "against a frozen frontier (ADR 0037 §9)",
                ),
            )
        } else if !votes {
            Some("this replica is not a voter".to_owned())
        } else {
            None
        };
        let lag: u64 = if formed.applied_index >= s.known_committed {
            0
        } else {
            s.known_committed - formed.applied_index
        };
        ReadyzReport {
            cluster_id: self.cluster_id.clone(),
            history_id: Some(text::hex(formed.history_id.as_slice())),
            node_id: Some(s.local_id),
            instance_uuid: Some(text::hex(formed.instance_uuid.as_slice())),
            phase: if votes {
                ReadyzPhase::Voter
            } else {
                ReadyzPhase::Learner
            },
            leader: s.leader,
            is_leader: s.is_leader(),
            applied_index: formed.applied_index,
            committed_index: s.known_committed,
            replication_lag: lag,
            leader_contact_stale: stale,
            voters,
            cluster_size: self.cluster_size,
            reason,
            promotion_hold: None,
            last_admission_refusal: None,
        }
    }

    /// The answer to a probe. A parked, forming or stopped daemon is
    /// discoverable, but not joinable.
    pub fn probe(&self) -> (r: ProbeClusterResponse)
        ensures
            states_probe(r, *self),
    {
        match &self.phase {
            Phase::Formed(formed) => {
                let s = &formed.summary;
                let entries = seats::settle(seats::voter_seats(&s.members));
                let mut voters: Vec<ProbeVoter> = Vec::new();
                let mut i: usize = 0;
                while i < entries.len()
                    invariant
                        i <= entries@.len(),
                        probe_views(voters@) =~= seats::entries(entries@).subrange(0, i as int),
                    decreases entries@.len() - i,
                {
                    let v = ProbeVoter { node_id: entries[i].0, address: entries[i].1.clone() };
                    assert(probe_views(voters@.push(v)) =~= probe_views(voters@).push(
                        (v.node_id, v.address@),
                    ));
                    voters.push(v);
                    i = i + 1;
                }
                assert(probe_views(voters@) =~= seats::entries(entries@));
                ProbeClusterResponse {
                    cluster_id: self.cluster_id.clone(),
                    history_id: copy_bytes(&formed.history_id),
                    initialized: true,
                    node_id: Some(s.local_id),
                    leader_hint: s.leader,
                    voters,
                }
            },
            _ => ProbeClusterResponse {
                cluster_id: self.cluster_id.clone(),
                history_id: Vec::new(),
                initialized: false,
                node_id: None,
                leader_hint: None,
                voters: Vec::new(),
            },
        }
    }
}

/// A partitioned leader does not read as ready for ever: with more than one
/// voter and no acknowledgment, contact counts as lost, whatever the indexes
/// say.
pub proof fn silence_is_not_contact(s: ClusterSummary, staleness: nat)
    requires
        voter_count(s.members@) > 1,
        s.leads(),
        s.millis_since_quorum_ack is None,
    ensures
        contact_lost(s, staleness),
        formed_reason(s, staleness) == Some(cut_off_text()),
{
}

// ---------------------------------------------------------------------------
// What is reported, in words
// ---------------------------------------------------------------------------

/// There is somebody to lose contact with exactly where two seats vote.
pub proof fn two_votes_are_two_seats(members: Seq<MemberSummary>)
    ensures
        voter_count(members) > 1 <==> exists|i: int, j: int|
            0 <= i < j < members.len() && (#[trigger] members[i]).voter && (
            #[trigger] members[j]).voter,
        voter_count(members) > 0 <==> exists|i: int|
            0 <= i < members.len() && (#[trigger] members[i]).voter,
    decreases members.len(),
{
    if members.len() > 0 {
        let rest = members.drop_last();
        let last = members.len() - 1;
        two_votes_are_two_seats(rest);
        assert forall|i: int| 0 <= i < rest.len() implies rest[i] == members[i] by {}
        if exists|i: int, j: int|
            0 <= i < j < members.len() && (#[trigger] members[i]).voter && (
            #[trigger] members[j]).voter {
            let (i, j) = choose|i: int, j: int|
                0 <= i < j < members.len() && (#[trigger] members[i]).voter && (
                #[trigger] members[j]).voter;
            assert(rest[i].voter);
            if j < last {
                assert(rest[i].voter && rest[j].voter);
            }
        }
        if voter_count(rest) > 1 {
            let (i, j) = choose|i: int, j: int|
                0 <= i < j < rest.len() && (#[trigger] rest[i]).voter && (#[trigger] rest[j]).voter;
            assert(members[i].voter && members[j].voter);
        }
        if voter_count(rest) > 0 {
            let i = choose|i: int| 0 <= i < rest.len() && (#[trigger] rest[i]).voter;
            assert(members[i].voter);
            if members[last].voter {
                assert(members[i].voter && members[last].voter);
            }
        }
        if exists|i: int| 0 <= i < members.len() && (#[trigger] members[i]).voter {
            let i = choose|i: int| 0 <= i < members.len() && (#[trigger] members[i]).voter;
            if i < last {
                assert(rest[i].voter);
            }
        }
    }
}

/// A formed replica is ready exactly when it votes and is in contact: a
/// replica that leads, while its quorum answered within the allowed span; one
/// that follows, while it knows a leader; and one that votes alone, always.
pub proof fn a_replica_is_ready_while_it_votes_in_contact(
    at: PhaseState,
    f: FormedReplica,
    shown: Option<String>,
    r: ReadyzReport,
)
    requires
        call_ensures(PhaseState::readyz, (&at, &shown), r),
        at.phase == Phase::Formed(f),
    ensures
        r.reason is None <==> !r.leader_contact_stale && r.phase == ReadyzPhase::Voter,
        r.phase == ReadyzPhase::Voter <==> exists|i: int|
            0 <= i < f.summary.members@.len() && (#[trigger] f.summary.members@[i]).id
                == f.summary.local_id && f.summary.members@[i].voter,
        r.phase == ReadyzPhase::Voter || r.phase == ReadyzPhase::Learner,
        r.leader_contact_stale ==> exists|i: int, j: int|
            0 <= i < j < f.summary.members@.len() && (#[trigger] f.summary.members@[i]).voter && (
            #[trigger] f.summary.members@[j]).voter,
        (exists|i: int, j: int|
            0 <= i < j < f.summary.members@.len() && (#[trigger] f.summary.members@[i]).voter && (
            #[trigger] f.summary.members@[j]).voter) ==> (r.leader_contact_stale <==> if
            f.summary.leader == Some(f.summary.local_id) {
            f.summary.millis_since_quorum_ack is None || f.summary.millis_since_quorum_ack->0
                * 1_000_000 > at.contact_staleness@
        } else {
            f.summary.leader is None
        }),
{
    two_votes_are_two_seats(f.summary.members@);
}

/// The rest of a formed replica's report is the replica's own: its identity,
/// whom it believes to lead, and how far its applied index trails.
pub proof fn a_formed_report_is_the_replicas(
    at: PhaseState,
    f: FormedReplica,
    shown: Option<String>,
    x: seats::Seat,
    r: ReadyzReport,
)
    requires
        call_ensures(PhaseState::readyz, (&at, &shown), r),
        at.phase == Phase::Formed(f),
    ensures
        r.cluster_id@ == at.cluster_id@,
        r.history_id is Some && r.history_id->0@ == text::hex_of(f.history_id@),
        r.instance_uuid is Some && r.instance_uuid->0@ == text::hex_of(f.instance_uuid@),
        r.node_id == Some(f.summary.local_id),
        r.leader == f.summary.leader,
        r.is_leader <==> f.summary.leader == Some(f.summary.local_id),
        r.applied_index == f.applied_index,
        r.committed_index == f.summary.known_committed,
        f.applied_index <= f.summary.known_committed ==> f.applied_index + r.replication_lag
            == f.summary.known_committed,
        f.applied_index >= f.summary.known_committed ==> r.replication_lag == 0,
        r.cluster_size == at.cluster_size,
        voter_views(r.voters@).contains(x) <==> exists|i: int|
            0 <= i < f.summary.members@.len() && (#[trigger] f.summary.members@[i]).voter
                && f.summary.members@[i].id == x.0 && f.summary.members@[i].addr@ == x.1,
{
    settled_holds_the_voters(f.summary.members@, x);
}

proof fn settled_holds_the_voters(members: Seq<MemberSummary>, x: seats::Seat)
    ensures
        seats::settled(seats::voter_seats_of(members)).contains(x) <==> exists|i: int|
            0 <= i < members.len() && (#[trigger] members[i]).voter && members[i].id == x.0
                && members[i].addr@ == x.1,
{
    broadcast use vstd::seq_lib::group_to_multiset_ensures;

    let before = seats::voter_seats_of(members);
    seats::settling_sorts(before);
    seats::voter_seats_are_the_voters(members, x);
    assert(before.contains(x) <==> before.to_multiset().count(x) > 0);
    assert(seats::settled(before).contains(x) <==> seats::settled(before).to_multiset().count(x)
        > 0);
}

/// A daemon that serves no cluster is never ready, names no node, and says
/// which of the three ways it is in; whatever convergence ran into stands
/// beside it.
pub proof fn without_a_cluster_nobody_is_ready(
    at: PhaseState,
    shown: Option<String>,
    r: ReadyzReport,
)
    requires
        call_ensures(PhaseState::readyz, (&at, &shown), r),
    ensures
        !(at.phase is Formed) ==> r.reason is Some && r.node_id is None && r.history_id is None
            && !r.is_leader && r.voters@.len() == 0 && r.leader is None,
        r.phase == ReadyzPhase::Waiting <==> at.phase is Waiting,
        r.phase == ReadyzPhase::FormationFailed <==> at.phase is Failed,
        r.phase == ReadyzPhase::HistorySuperseded <==> at.phase is Superseded,
        at.phase matches Phase::Superseded { message } ==> r.reason->0@ == message@,
        noted(r.promotion_hold) == noted(at.promotion_hold),
        noted(r.last_admission_refusal) == noted(at.last_admission_refusal),
{
}

/// A probe finds a joinable cluster exactly where one is formed, and then its
/// history, its node, its leader and its voters; anywhere else it finds
/// nothing of them.
pub proof fn a_probe_finds_what_is_formed(at: PhaseState, x: seats::Seat, r: ProbeClusterResponse)
    requires
        call_ensures(PhaseState::probe, (&at,), r),
    ensures
        r.cluster_id@ == at.cluster_id@,
        r.initialized <==> at.phase is Formed,
        at.phase matches Phase::Formed(f) ==> r.history_id@ == f.history_id@ && r.node_id == Some(
            f.summary.local_id,
        ) && r.leader_hint == f.summary.leader && (probe_views(r.voters@).contains(x)
            <==> exists|i: int|
            0 <= i < f.summary.members@.len() && (#[trigger] f.summary.members@[i]).voter
                && f.summary.members@[i].id == x.0 && f.summary.members@[i].addr@ == x.1),
        !(at.phase is Formed) ==> r.history_id@.len() == 0 && r.node_id is None && r.leader_hint
            is None && r.voters@.len() == 0,
{
    if let Phase::Formed(f) = at.phase {
        settled_holds_the_voters(f.summary.members@, x);
    }
}

/// A daemon starts out stopped exactly where a formation was begun and not
/// completed.
pub proof fn a_dangling_intent_starts_stopped(
    cluster_id: String,
    cluster_size: usize,
    contact_staleness: Duration,
    marks: FormationMarks,
    r: PhaseState,
)
    requires
        call_ensures(
            PhaseState::unformed,
            (cluster_id, cluster_size, contact_staleness, marks),
            r,
        ),
    ensures
        r.phase is Failed <==> marks.intent_at_us is Some && marks.complete_at_us is None,
        r.phase matches Phase::Failed { intent_at_us } ==> Some(intent_at_us) == marks.intent_at_us,
        !(r.phase is Failed) ==> r.phase is Waiting,
        r.promotion_hold is None && r.last_admission_refusal is None,
{
}

/// What is published is what stands, until a history is superseded; after
/// that nothing published changes anything.
pub proof fn a_superseded_history_is_the_last_word(
    formed: &mut PhaseState,
    stopped: &mut PhaseState,
    ended: &mut PhaseState,
    replica: FormedReplica,
    intent_at_us: i64,
    message: String,
)
    requires
        call_ensures(PhaseState::publish_formed, (formed, replica), ()),
        call_ensures(PhaseState::publish_failed, (stopped, intent_at_us), ()),
        call_ensures(PhaseState::publish_superseded, (ended, message), ()),
    ensures
        old(formed).phase is Superseded ==> *final(formed) == *old(formed),
        old(stopped).phase is Superseded ==> *final(stopped) == *old(stopped),
        old(ended).phase is Superseded ==> *final(ended) == *old(ended),
        !(old(formed).phase is Superseded) ==> final(formed).phase == Phase::Formed(replica),
        !(old(stopped).phase is Superseded) ==> final(stopped).phase == (Phase::Failed {
            intent_at_us,
        }),
        !(old(ended).phase is Superseded) ==> final(ended).phase == (Phase::Superseded { message }),
        final(formed).promotion_hold == old(formed).promotion_hold,
        final(stopped).promotion_hold == old(stopped).promotion_hold,
        final(ended).promotion_hold == old(ended).promotion_hold,
{
}

/// A notice is taken down in its own place, and clearing clears both.
pub proof fn a_notice_is_taken_down_in_its_place(at: &mut PhaseState, notice: Notice)
    requires
        call_ensures(PhaseState::note, (at, notice), ()),
    ensures
        final(at).phase == old(at).phase,
        notice matches Notice::PromotionHold(m) ==> final(at).promotion_hold == Some(m) && final(at).last_admission_refusal == old(at).last_admission_refusal,
        notice matches Notice::AdmissionRefusal(m) ==> final(at).last_admission_refusal == Some(m)
            && final(at).promotion_hold == old(at).promotion_hold,
        notice is Clear ==> final(at).promotion_hold is None && final(at).last_admission_refusal is None,
        notice is Keep ==> *final(at) == *old(at),
{
}

/// The two questions a daemon is asked about its phase.
pub proof fn a_phase_is_asked_about(at: PhaseState, formed: bool, stopped: Option<i64>)
    requires
        call_ensures(PhaseState::is_formed, (&at,), formed),
        call_ensures(PhaseState::failed_at, (&at,), stopped),
    ensures
        formed <==> at.phase is Formed,
        stopped is Some <==> at.phase is Failed,
        at.phase matches Phase::Failed { intent_at_us } ==> stopped == Some(intent_at_us),
{
}

} // verus!
