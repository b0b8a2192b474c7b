//! Where to look for a leader, and whom to believe.
//!
//! Local knowledge comes first: the believed leader, then every other member.
//! Discovery seeds a first dial and nothing more. An endpoint is only ever
//! taken on the strength of its own answer, never on another replica's belief
//! about it.

use vstd::prelude::*;
use vstd::string::*;

use crate::cluster::{ClusterSummary, MemberSummary};
use crate::text;
use crate::wire::{copy_bytes, ProbeClusterResponse, ProbeVoter};

verus! {

// ---------------------------------------------------------------------------
// Dial targets
// ---------------------------------------------------------------------------

/// `list` with `a` at its end, unless it is there already.
pub open spec fn push_new(list: Seq<Seq<char>>, a: Seq<char>) -> Seq<Seq<char>> {
    if list.contains(a) {
        list
    } else {
        list.push(a)
    }
}

/// `start`, then the address of every member but this replica, in order and
/// each once.
pub open spec fn other_addrs(
    members: Seq<MemberSummary>,
    local: u64,
    start: Seq<Seq<char>>,
) -> Seq<Seq<char>>
    decreases members.len(),
{
    if members.len() == 0 {
        start
    } else {
        let before = other_addrs(members.drop_last(), local, start);
        if members.last().id != local {
            push_new(before, members.last().addr@)
        } else {
            before
        }
    }
}

/// The address of the believed leader, when it is a member.
pub open spec fn leader_addr(summary: ClusterSummary) -> Seq<Seq<char>> {
    if summary.leader is Some && summary.seats(summary.leader->0) {
        seq![summary.members@[summary.seat_of(summary.leader->0)].addr@]
    } else {
        Seq::empty()
    }
}

/// The addresses membership names: the believed leader's, then everyone
/// else's.
pub open spec fn known_targets(summary: ClusterSummary) -> Seq<Seq<char>> {
    other_addrs(summary.members@, summary.local_id, leader_addr(summary))
}

/// The addresses to look for a leader at, from what membership names. When it
/// names none, discovery is the fallback: [`seed_targets`].
pub fn dial_targets(summary: &ClusterSummary) -> (r: Vec<String>)
    ensures
        text::views(r@) == known_targets(*summary),
{
    let mut targets: Vec<String> = Vec::new();
    if let Some(leader) = summary.leader {
        if let Some(at) = summary.find(leader) {
            targets.push(summary.members[at].addr.clone());
        }
    }
    assert(text::views(targets@) =~= leader_addr(*summary));
    let ghost start = text::views(targets@);
    let n: usize = summary.members.len();
    let mut i: usize = 0;
    assert(summary.members@.subrange(0, 0) =~= Seq::empty());
    while i < n
        invariant
            n == summary.members@.len(),
            i <= n,
            text::views(targets@) == other_addrs(
                summary.members@.subrange(0, i as int),
                summary.local_id,
                start,
            ),
        decreases n - i,
    {
        let m = &summary.members[i];
        assert(summary.members@.subrange(0, i + 1).drop_last() =~= summary.members@.subrange(
            0,
            i as int,
        ));
        if m.id != summary.local_id && !text::listed(&targets, m.addr.as_str()) {
            let ghost before = targets@;
            targets.push(m.addr.clone());
            assert(text::views(targets@) =~= text::views(before).push(m.addr@));
        }
        i = i + 1;
    }
    assert(summary.members@.subrange(0, n as int) =~= summary.members@);
    targets
}

/// The candidates of a discovery round, this very process left out.
pub open spec fn without_own(candidates: Seq<Seq<char>>, own: Seq<char>) -> Seq<Seq<char>> {
    candidates.filter(|c: Seq<char>| c != own)
}

/// The candidates of a discovery round, this very process left out.
pub fn seed_targets(candidates: &Vec<String>, own: &str) -> (r: Vec<String>)
    ensures
        text::views(r@) == without_own(text::views(candidates@), own@),
{
    let mut out: Vec<String> = Vec::new();
    let ghost all = text::views(candidates@);
    let n: usize = candidates.len();
    let mut i: usize = 0;
    proof {
        reveal(Seq::filter);
        assert(all.subrange(0, 0).filter(|c: Seq<char>| c != own@) =~= Seq::empty());
    }
    while i < n
        invariant
            n == candidates@.len(),
            i <= n,
            all == text::views(candidates@),
            text::views(out@) == all.subrange(0, i as int).filter(|c: Seq<char>| c != own@),
        decreases n - i,
    {
        proof {
            reveal(Seq::filter);
            assert(all.subrange(0, i + 1).drop_last() =~= all.subrange(0, i as int));
            assert(all.subrange(0, i + 1).last() == candidates@[i as int]@);
        }
        if !text::same(candidates[i].as_str(), own) {
            let ghost before = out@;
            out.push(candidates[i].clone());
            assert(text::views(out@) =~= text::views(before).push(candidates@[i as int]@));
        }
        i = i + 1;
    }
    assert(all.subrange(0, n as int) =~= all);
    out
}

/// No address is dialled twice.
pub proof fn targets_are_distinct(summary: ClusterSummary)
    ensures
        known_targets(summary).no_duplicates(),
{
    others_distinct(summary.members@, summary.local_id, leader_addr(summary));
}

proof fn others_distinct(members: Seq<MemberSummary>, local: u64, start: Seq<Seq<char>>)
    requires
        start.no_duplicates(),
    ensures
        other_addrs(members, local, start).no_duplicates(),
    decreases members.len(),
{
    if members.len() > 0 {
        others_distinct(members.drop_last(), local, start);
    }
}

/// Every other member is dialled, and the believed leader before all others.
pub proof fn targets_cover_membership(summary: ClusterSummary, i: int)
    requires
        0 <= i < summary.members@.len(),
        summary.members@[i].id != summary.local_id,
    ensures
        known_targets(summary).contains(summary.members@[i].addr@),
        leader_addr(summary).len() == 1 ==> known_targets(summary)[0] == leader_addr(summary)[0],
{
    others_cover(summary.members@, summary.local_id, leader_addr(summary), i);
}

proof fn others_cover(members: Seq<MemberSummary>, local: u64, start: Seq<Seq<char>>, i: int)
    requires
        0 <= i < members.len(),
        members[i].id != local,
    ensures
        other_addrs(members, local, start).contains(members[i].addr@),
        start.len() > 0 ==> other_addrs(members, local, start)[0] == start[0],
    decreases members.len(),
{
    others_keep(members, local, start);
    let before = other_addrs(members.drop_last(), local, start);
    let a = members.last().addr@;
    if i == members.len() - 1 {
        if !before.contains(a) {
            assert(before.push(a)[before.len() as int] == a);
        }
    } else {
        others_cover(members.drop_last(), local, start, i);
        assert(members.drop_last()[i] == members[i]);
        let b = members[i].addr@;
        let k = choose|k: int| 0 <= k < before.len() && before[k] == b;
        if members.last().id != local && !before.contains(a) {
            assert(before.push(a)[k] == b);
        }
    }
}

proof fn others_keep(members: Seq<MemberSummary>, local: u64, start: Seq<Seq<char>>)
    ensures
        other_addrs(members, local, start).len() >= start.len(),
        start.len() > 0 ==> other_addrs(members, local, start)[0] == start[0],
    decreases members.len(),
{
    if members.len() > 0 {
        others_keep(members.drop_last(), local, start);
    }
}

// ---------------------------------------------------------------------------
// Leadership evidence
// ---------------------------------------------------------------------------

/// Whether an answer is the responder's own claim to lead: it knows its raft
/// identity and names that very node.
pub open spec fn claims(answer: ProbeClusterResponse) -> bool {
    answer.node_id is Some && answer.leader_hint == answer.node_id
}

/// Whether an answer is the responder's own claim to lead.
pub fn claims_leadership(answer: &ProbeClusterResponse) -> (r: bool)
    ensures
        r == claims(*answer),
{
    match (answer.node_id, answer.leader_hint) {
        (Some(id), Some(hint)) => id == hint,
        _ => false,
    }
}

/// Whether an answer is one of an initialized cluster of this name.
pub open spec fn relevant(answer: ProbeClusterResponse, cluster_id: Seq<char>) -> bool {
    answer.initialized && answer.cluster_id@ == cluster_id
}

/// Keep an answer only when it comes from an initialized cluster of this name.
pub fn relevant_answer(answer: Option<ProbeClusterResponse>, cluster_id: &str) -> (r: Option<
    ProbeClusterResponse,
>)
    ensures
        r == if answer is Some && relevant(answer->0, cluster_id@) {
            answer
        } else {
            None
        },
{
    match answer {
        Some(a) => {
            if a.initialized && text::same(a.cluster_id.as_str(), cluster_id) {
                Some(a)
            } else {
                None
            }
        },
        None => None,
    }
}

/// One reachable candidate and what it answered.
#[derive(Debug, Clone)]
pub struct Answer {
    pub addr: String,
    pub probe: ProbeClusterResponse,
}

/// Whether the candidate at this address has answered.
pub open spec fn has_answered(answers: Seq<Answer>, addr: Seq<char>) -> bool {
    exists|i: int| 0 <= i < answers.len() && (#[trigger] answers[i]).addr@ == addr
}

/// The position of the first voter with this id, or the count.
pub open spec fn voter_at(voters: Seq<ProbeVoter>, id: u64) -> int
    decreases voters.len(),
{
    if voters.len() == 0 || voters[0].node_id == id {
        0
    } else {
        1 + voter_at(voters.subrange(1, voters.len() as int), id)
    }
}

/// Whether an answer's hint resolves to an address in its own voter list.
pub open spec fn resolves_hint(p: ProbeClusterResponse) -> bool {
    p.leader_hint is Some && voter_at(p.voters@, p.leader_hint->0) < p.voters@.len()
}

/// The address an answer's hint resolves to.
pub open spec fn hinted_addr(p: ProbeClusterResponse) -> Seq<char> {
    p.voters@[voter_at(p.voters@, p.leader_hint->0)].address@
}

/// Whether an endpoint is hinted at already.
pub open spec fn hint_listed(hints: Seq<(u64, Seq<char>)>, addr: Seq<char>) -> bool {
    exists|i: int| 0 <= i < hints.len() && (#[trigger] hints[i]).1 == addr
}

/// The endpoints the answers' hints resolve to, in answer order and each once.
pub open spec fn hints_of(answers: Seq<Answer>) -> Seq<(u64, Seq<char>)>
    decreases answers.len(),
{
    if answers.len() == 0 {
        Seq::empty()
    } else {
        let before = hints_of(answers.drop_last());
        let p = answers.last().probe;
        if resolves_hint(p) && !hint_listed(before, hinted_addr(p)) {
            before.push((p.leader_hint->0, hinted_addr(p)))
        } else {
            before
        }
    }
}

/// Whether a candidate is itself in the voter set it reports.
pub open spec fn reports_itself(p: ProbeClusterResponse) -> bool {
    p.node_id is Some && voter_at(p.voters@, p.node_id->0) < p.voters@.len()
}

/// The first answer of a kind, or the count.
pub open spec fn first_where(answers: Seq<Answer>, kind: spec_fn(ProbeClusterResponse) -> bool) -> int
    decreases answers.len(),
{
    if answers.len() == 0 || kind(answers[0].probe) {
        0
    } else {
        1 + first_where(answers.subrange(1, answers.len() as int), kind)
    }
}

/// The first answer that claims leadership, or the count.
pub open spec fn first_claim(answers: Seq<Answer>) -> int {
    first_where(answers, |p: ProbeClusterResponse| claims(p))
}

/// The answer to fall back on when nothing was validated: the first that is
/// itself a voter, else the first that reports any voter, else the count.
pub open spec fn fallback(answers: Seq<Answer>) -> int {
    let itself = first_where(answers, |p: ProbeClusterResponse| reports_itself(p));
    if itself < answers.len() {
        itself
    } else {
        first_where(answers, |p: ProbeClusterResponse| p.voters@.len() > 0)
    }
}

fn find_voter(voters: &Vec<ProbeVoter>, id: u64) -> (r: Option<usize>)
    ensures
        r is Some <==> voter_at(voters@, id) < voters@.len(),
        r matches Some(i) ==> i == voter_at(voters@, id) && i < voters@.len(),
{
    let n: usize = voters.len();
    let mut i: usize = 0;
    assert(voters@.subrange(0, n as int) =~= voters@);
    while i < n
        invariant
            n == voters@.len(),
            i <= n,
            voter_at(voters@, id) == i + voter_at(voters@.subrange(i as int, n as int), id),
        decreases n - i,
    {
        let ghost rest = voters@.subrange(i as int, n as int);
        assert(rest.subrange(1, rest.len() as int) =~= voters@.subrange(i + 1, n as int));
        if voters[i].node_id == id {
            return Some(i);
        }
        i = i + 1;
    }
    None
}

/// Which question a search over the answers asks.
#[derive(Clone, Copy, PartialEq, Eq, Structural)]
enum Question {
    Claims,
    ReportsItself,
    ReportsVoters,
}

impl Question {
    spec fn kind(self) -> spec_fn(ProbeClusterResponse) -> bool {
        match self {
            Question::Claims => |p: ProbeClusterResponse| claims(p),
            Question::ReportsItself => |p: ProbeClusterResponse| reports_itself(p),
            Question::ReportsVoters => |p: ProbeClusterResponse| p.voters@.len() > 0,
        }
    }

    fn holds(self, p: &ProbeClusterResponse) -> (r: bool)
        ensures
            r == self.kind()(*p),
    {
        match self {
            Question::Claims => claims_leadership(p),
            Question::ReportsItself => match p.node_id {
                Some(id) => find_voter(&p.voters, id).is_some(),
                None => false,
            },
            Question::ReportsVoters => p.voters.len() > 0,
        }
    }
}

fn find_answer(answers: &Vec<Answer>, question: Question) -> (r: Option<usize>)
    ensures
        r is Some <==> first_where(answers@, question.kind()) < answers@.len(),
        r matches Some(i) ==> i == first_where(answers@, question.kind()) && i < answers@.len(),
{
    let n: usize = answers.len();
    let mut i: usize = 0;
    assert(answers@.subrange(0, n as int) =~= answers@);
    while i < n
        invariant
            n == answers@.len(),
            i <= n,
            first_where(answers@, question.kind()) == i + first_where(
                answers@.subrange(i as int, n as int),
                question.kind(),
            ),
        decreases n - i,
    {
        let ghost rest = answers@.subrange(i as int, n as int);
        assert(rest.subrange(1, rest.len() as int) =~= answers@.subrange(i + 1, n as int));
        if question.holds(&answers[i].probe) {
            return Some(i);
        }
        i = i + 1;
    }
    None
}

/// What `first_where` finds is of the kind, and nothing before it is.
proof fn first_where_is_first(answers: Seq<Answer>, kind: spec_fn(ProbeClusterResponse) -> bool)
    ensures
        0 <= first_where(answers, kind) <= answers.len(),
        first_where(answers, kind) < answers.len() ==> kind(
            answers[first_where(answers, kind)].probe,
        ),
        forall|j: int|
            0 <= j < first_where(answers, kind) ==> !kind((#[trigger] answers[j]).probe),
    decreases answers.len(),
{
    if answers.len() > 0 && !kind(answers[0].probe) {
        let rest = answers.subrange(1, answers.len() as int);
        first_where_is_first(rest, kind);
        assert forall|j: int| 0 <= j < first_where(answers, kind) implies !kind(
            (#[trigger] answers[j]).probe,
        ) by {
            if j > 0 {
                assert(rest[j - 1] == answers[j]);
            }
        }
    }
}

// ---------------------------------------------------------------------------
// The search
// ---------------------------------------------------------------------------

/// What a search for the leader asks its driver for.
#[derive(Debug, Clone)]
pub enum SearchStep {
    /// Probe this address, bounded, and report what it answered.
    Probe(String),
    /// Dial this endpoint; the history is the one it reported.
    Found { addr: String, history: Vec<u8> },
    /// Nobody worth dialling answered.
    NotFound,
}

/// A search for the leader of an initialized cluster.
///
/// The whole round's answers are collected before anything is chosen. Then a
/// candidate that claims leadership for itself is taken outright; otherwise
/// the endpoints that the answers' hints resolve to are asked in turn, and one
/// is taken only if it claims leadership for itself under the hinted id;
/// otherwise a candidate whose refusal will name the leader.
pub struct LeaderSearch {
    candidates: Vec<String>,
    next: usize,
    answers: Vec<Answer>,
    hinting: bool,
    hints: Vec<(u64, String)>,
    next_hint: usize,
}

/// The views of a list of hinted endpoints.
pub open spec fn hint_views(hints: Seq<(u64, String)>) -> Seq<(u64, Seq<char>)> {
    hints.map_values(|h: (u64, String)| (h.0, h.1@))
}

impl LeaderSearch {
    /// The candidates of the round.
    pub closed spec fn candidates(self) -> Seq<Seq<char>> {
        text::views(self.candidates@)
    }

    /// How many candidates have been asked or passed over.
    pub closed spec fn asked(self) -> nat {
        self.next as nat
    }

    /// The answers collected so far.
    pub closed spec fn answers(self) -> Seq<Answer> {
        self.answers@
    }

    /// Whether the round is complete and hinted endpoints are being asked.
    pub closed spec fn hinting(self) -> bool {
        self.hinting
    }

    /// The hinted endpoints.
    pub closed spec fn hints(self) -> Seq<(u64, Seq<char>)> {
        hint_views(self.hints@)
    }

    /// How many hinted endpoints have been asked or passed over.
    pub closed spec fn hints_asked(self) -> nat {
        self.next_hint as nat
    }

    /// The state of a search is coherent: hints are asked only after the whole
    /// round was, with no claimant in it, and they are the round's.
    pub open spec fn wf(self) -> bool {
        &&& self.asked() <= self.candidates().len()
        &&& self.hints_asked() <= self.hints().len()
        &&& self.hinting() ==> {
            &&& self.asked() == self.candidates().len()
            &&& first_claim(self.answers()) == self.answers().len()
            &&& self.hints() == hints_of(self.answers())
        }
    }

    /// The address that was last asked for and not yet answered.
    pub open spec fn pending(self) -> Seq<char> {
        if self.hinting() {
            self.hints()[self.hints_asked() as int].1
        } else {
            self.candidates()[self.asked() as int]
        }
    }

    /// The first hinted endpoint that is still to be asked or passed over.
    pub open spec fn hints_first(self) -> nat {
        if self.hinting() {
            self.hints_asked()
        } else {
            0
        }
    }

    /// Whether an address was asked for and not yet answered.
    pub open spec fn waiting(self) -> bool {
        if self.hinting() {
            self.hints_asked() < self.hints().len()
        } else {
            self.asked() < self.candidates().len()
        }
    }

    pub fn new(candidates: Vec<String>) -> (r: LeaderSearch)
        ensures
            r.wf(),
            r.candidates() == text::views(candidates@),
            r.asked() == 0,
            r.answers() == Seq::<Answer>::empty(),
            !r.hinting(),
    {
        LeaderSearch {
            candidates,
            next: 0,
            answers: Vec::new(),
            hinting: false,
            hints: Vec::new(),
            next_hint: 0,
        }
    }

    fn answered_by(&self, addr: &str) -> (r: bool)
        ensures
            r == has_answered(self.answers(), addr@),
    {
        let mut i: usize = 0;
        while i < self.answers.len()
            invariant
                i <= self.answers@.len(),
                forall|j: int| 0 <= j < i ==> (#[trigger] self.answers@[j]).addr@ != addr@,
            decreases self.answers@.len() - i,
        {
            if text::same(self.answers[i].addr.as_str(), addr) {
                return true;
            }
            i = i + 1;
        }
        false
    }

    fn collect_hints(&self) -> (r: Vec<(u64, String)>)
        ensures
            hint_views(r@) == hints_of(self.answers()),
    {
        let mut out: Vec<(u64, String)> = Vec::new();
        let n: usize = self.answers.len();
        let mut i: usize = 0;
        assert(hint_views(out@) =~= hints_of(self.answers@.subrange(0, 0)));
        while i < n
            invariant
                n == self.answers@.len(),
                i <= n,
                hint_views(out@) == hints_of(self.answers@.subrange(0, i as int)),
            decreases n - i,
        {
            let p = &self.answers[i].probe;
            assert(self.answers@.subrange(0, i + 1).drop_last() =~= self.answers@.subrange(
                0,
                i as int,
            ));
            if let Some(hint) = p.leader_hint {
                if let Some(at) = find_voter(&p.voters, hint) {
                    let addr = &p.voters[at].address;
                    let mut listed = false;
                    let mut k: usize = 0;
                    while k < out.len() && !listed
                        invariant
                            k <= out@.len(),
                            !listed ==> forall|j: int|
                                0 <= j < k ==> (#[trigger] out@[j]).1@ != addr@,
                            listed ==> hint_listed(hint_views(out@), addr@),
                        decreases out@.len() - k + (if listed {
                            0int
                        } else {
                            1int
                        }),
                    {
                        if text::same(out[k].1.as_str(), addr.as_str()) {
                            assert(hint_views(out@)[k as int].1 == addr@);
                            listed = true;
                        } else {
                            k = k + 1;
                        }
                    }
                    if !listed {
                        assert(!hint_listed(hint_views(out@), addr@)) by {
                            assert forall|j: int| 0 <= j < hint_views(out@).len() implies (
                            #[trigger] hint_views(out@)[j]).1 != addr@ by {
                                assert(out@[j].1@ != addr@);
                            }
                        }
                        let ghost before = out@;
                        out.push((hint, addr.clone()));
                        assert(hint_views(out@) =~= hint_views(before).push((hint, addr@)));
                    }
                }
            }
            i = i + 1;
        }
        assert(self.answers@.subrange(0, n as int) =~= self.answers@);
        out
    }

    fn endpoint(&self, at: usize) -> (r: SearchStep)
        requires
            at < self.answers@.len(),
        ensures
            r matches SearchStep::Found { addr, history } && addr@ == self.answers()[at as int].addr@
                && history@ == self.answers()[at as int].probe.history_id@,
    {
        SearchStep::Found {
            addr: self.answers[at].addr.clone(),
            history: copy_bytes(&self.answers[at].probe.history_id),
        }
    }

    /// Go on: the next address to ask, or the end of the search.
    ///
    /// An address is asked only if it has not answered this round, and passed
    /// over only if it has. The end is a claimant of the round, or, once every
    /// hint was asked, the fallback: without a claimant no end comes before
    /// the hints were collected and asked.
    pub fn advance(&mut self) -> (r: SearchStep)
        requires
            old(self).wf(),
        ensures
            final(self).wf(),
            final(self).candidates() == old(self).candidates(),
            final(self).answers() == old(self).answers(),
            final(self).asked() >= old(self).asked(),
            old(self).hinting() ==> final(self).hinting() && final(self).hints_asked()
                >= old(self).hints_asked(),
            forall|k: int|
                old(self).asked() <= k < final(self).asked() ==> has_answered(
                    final(self).answers(),
                    #[trigger] final(self).candidates()[k],
                ),
            forall|k: int|
                old(self).hints_first() <= k < final(self).hints_asked() && final(self).hinting()
                    ==> has_answered(
                    final(self).answers(),
                    (#[trigger] final(self).hints()[k]).1,
                ),
            match r {
                SearchStep::Probe(addr) => {
                    &&& final(self).waiting()
                    &&& addr@ == final(self).pending()
                    &&& !has_answered(final(self).answers(), addr@)
                },
                SearchStep::Found { addr, history } => {
                    let answers = final(self).answers();
                    let at = if first_claim(answers) < answers.len() {
                        first_claim(answers)
                    } else {
                        fallback(answers)
                    };
                    &&& !final(self).waiting()
                    &&& first_claim(answers) == answers.len() ==> final(self).hinting()
                    &&& 0 <= at < answers.len()
                    &&& addr@ == answers[at].addr@
                    &&& history@ == answers[at].probe.history_id@
                },
                SearchStep::NotFound => {
                    let answers = final(self).answers();
                    &&& !final(self).waiting()
                    &&& final(self).hinting()
                    &&& first_claim(answers) == answers.len()
                    &&& fallback(answers) == answers.len()
                },
            },
    {
        let ghost start = *self;
        if !self.hinting {
            while self.next < self.candidates.len()
                invariant
                    self.wf(),
                    !self.hinting,
                    start == *old(self),
                    self.candidates() == start.candidates(),
                    self.answers() == start.answers(),
                    self.asked() >= start.asked(),
                    !start.hinting(),
                    forall|k: int|
                        start.asked() <= k < self.asked() ==> has_answered(
                            self.answers(),
                            #[trigger] self.candidates()[k],
                        ),
                decreases self.candidates@.len() - self.next,
            {
                let addr = self.candidates[self.next].clone();
                if !self.answered_by(addr.as_str()) {
                    return SearchStep::Probe(addr);
                }
                self.next = self.next + 1;
            }
            proof {
                first_where_is_first(self.answers@, |p: ProbeClusterResponse| claims(p));
            }
            if let Some(at) = find_answer(&self.answers, Question::Claims) {
                return self.endpoint(at);
            }
            let hints = self.collect_hints();
            self.hints = hints;
            self.next_hint = 0;
            self.hinting = true;
        }
        while self.next_hint < self.hints.len()
            invariant
                self.wf(),
                self.hinting,
                start == *old(self),
                self.candidates() == start.candidates(),
                self.answers() == start.answers(),
                self.asked() >= start.asked(),
                start.hinting() ==> self.hints_asked() >= start.hints_asked(),
                forall|k: int|
                    start.asked() <= k < self.asked() ==> has_answered(
                        self.answers(),
                        #[trigger] self.candidates()[k],
                    ),
                forall|k: int|
                    start.hints_first() <= k < self.hints_asked() ==> has_answered(
                        self.answers(),
                        (#[trigger] self.hints()[k]).1,
                    ),
            decreases self.hints@.len() - self.next_hint,
        {
            let addr = self.hints[self.next_hint].1.clone();
            if !self.answered_by(addr.as_str()) {
                return SearchStep::Probe(addr);
            }
            self.next_hint = self.next_hint + 1;
        }
        proof {
            first_where_is_first(self.answers@, |p: ProbeClusterResponse| reports_itself(p));
            first_where_is_first(self.answers@, |p: ProbeClusterResponse| p.voters@.len() > 0);
        }
        if let Some(at) = find_answer(&self.answers, Question::ReportsItself) {
            return self.endpoint(at);
        }
        if let Some(at) = find_answer(&self.answers, Question::ReportsVoters) {
            return self.endpoint(at);
        }
        SearchStep::NotFound
    }

    /// Take what the asked address answered, if anything.
    ///
    /// While the round is being collected the answer joins it. A hinted
    /// endpoint ends the search when it claims leadership for itself under the
    /// hinted id; otherwise its answer changes nothing.
    pub fn answered(&mut self, answer: Option<ProbeClusterResponse>) -> (r: Option<
        (String, Vec<u8>),
    >)
        requires
            old(self).wf(),
            old(self).waiting(),
        ensures
            final(self).wf(),
            final(self).candidates() == old(self).candidates(),
            !old(self).hinting() ==> {
                &&& r is None
                &&& !final(self).hinting()
                &&& final(self).asked() == old(self).asked() + 1
                &&& answer is None ==> final(self).answers() == old(self).answers()
                &&& answer matches Some(p) ==> {
                    &&& final(self).answers().len() == old(self).answers().len() + 1
                    &&& final(self).answers().drop_last() == old(self).answers()
                    &&& final(self).answers().last().addr@ == old(self).pending()
                    &&& final(self).answers().last().probe == p
                }
            },
            old(self).hinting() ==> {
                &&& final(self).hinting()
                &&& final(self).answers() == old(self).answers()
                &&& final(self).hints_asked() == old(self).hints_asked() + 1
                &&& r is Some <==> {
                    &&& answer is Some
                    &&& answer->0.node_id == Some(old(self).hints()[old(self).hints_asked() as int].0)
                    &&& claims(answer->0)
                }
                &&& r matches Some(found) ==> found.0@ == old(self).pending() && found.1@
                    == answer->0.history_id@
            },
    {
        let ghost start = *self;
        if !self.hinting {
            if let Some(p) = answer {
                let addr = self.candidates[self.next].clone();
                self.answers.push(Answer { addr, probe: p });
                assert(self.answers@.drop_last() =~= start.answers@);
            }
            assert(self.next < self.candidates.len());
            self.next = self.next + 1;
            return None;
        }
        assert(self.next_hint < self.hints.len());
        let hint: u64 = self.hints[self.next_hint].0;
        let addr = self.hints[self.next_hint].1.clone();
        self.next_hint = self.next_hint + 1;
        if let Some(p) = answer {
            let named = match p.node_id {
                Some(id) => id == hint,
                None => false,
            };
            if named && claims_leadership(&p) {
                return Some((addr, copy_bytes(&p.history_id)));
            }
        }
        None
    }
}

/// A follower's hint alone is never enough: whatever the search ends on in
/// its round is an endpoint that answered, and it is a claimant whenever the
/// round holds one.
pub proof fn found_endpoints_answered(answers: Seq<Answer>, at: int)
    requires
        at == (if first_claim(answers) < answers.len() {
            first_claim(answers)
        } else {
            fallback(answers)
        }),
        0 <= at < answers.len(),
    ensures
        has_answered(answers, answers[at].addr@),
        claims(answers[at].probe) || (forall|j: int|
            0 <= j < answers.len() ==> !claims((#[trigger] answers[j]).probe)),
        answers[at].probe.voters@.len() > 0 || claims(answers[at].probe),
{
    first_where_is_first(answers, |p: ProbeClusterResponse| claims(p));
    first_where_is_first(answers, |p: ProbeClusterResponse| reports_itself(p));
    first_where_is_first(answers, |p: ProbeClusterResponse| p.voters@.len() > 0);
}

// ---------------------------------------------------------------------------
// What the pieces of the search are
// ---------------------------------------------------------------------------

/// A replica claims to lead exactly when it knows its own id and names that
/// very id as leader.
pub proof fn a_claim_names_the_claimant(p: ProbeClusterResponse, r: bool)
    requires
        call_ensures(claims_leadership, (&p,), r),
    ensures
        r <==> p.node_id is Some && p.leader_hint is Some && p.node_id->0 == p.leader_hint->0,
        r == claims(p),
{
}

/// An answer counts exactly when it comes from an initialized cluster of this
/// name, and then unchanged.
pub proof fn only_this_clusters_answers_count(
    answer: Option<ProbeClusterResponse>,
    cluster_id: &str,
    r: Option<ProbeClusterResponse>,
)
    requires
        call_ensures(relevant_answer, (answer, cluster_id), r),
    ensures
        r is Some <==> answer is Some && answer->0.initialized && answer->0.cluster_id@
            == cluster_id@,
        r is Some ==> r == answer,
{
}

proof fn voter_at_is_first(voters: Seq<ProbeVoter>, id: u64)
    ensures
        0 <= voter_at(voters, id) <= voters.len(),
        voter_at(voters, id) < voters.len() ==> voters[voter_at(voters, id)].node_id == id,
        forall|j: int| 0 <= j < voter_at(voters, id) ==> (#[trigger] voters[j]).node_id != id,
    decreases voters.len(),
{
    if voters.len() > 0 && voters[0].node_id != id {
        let rest = voters.subrange(1, voters.len() as int);
        voter_at_is_first(rest, id);
        assert forall|j: int| 0 <= j < voter_at(voters, id) implies (#[trigger] voters[j]).node_id
            != id by {
            if j > 0 {
                assert(rest[j - 1] == voters[j]);
            }
        }
    }
}

/// A hint resolves exactly when the answer's own voters hold the node it
/// names, and then to that voter's address.
pub proof fn a_hint_resolves_in_its_own_answer(p: ProbeClusterResponse)
    ensures
        resolves_hint(p) <==> p.leader_hint is Some && exists|i: int|
            0 <= i < p.voters@.len() && (#[trigger] p.voters@[i]).node_id == p.leader_hint->0,
        resolves_hint(p) ==> exists|i: int|
            0 <= i < p.voters@.len() && (#[trigger] p.voters@[i]).node_id == p.leader_hint->0
                && p.voters@[i].address@ == hinted_addr(p),
        reports_itself(p) <==> p.node_id is Some && exists|i: int|
            0 <= i < p.voters@.len() && (#[trigger] p.voters@[i]).node_id == p.node_id->0,
{
    if p.leader_hint is Some {
        voter_at_is_first(p.voters@, p.leader_hint->0);
        let at = voter_at(p.voters@, p.leader_hint->0);
        if at < p.voters@.len() {
            assert(p.voters@[at].node_id == p.leader_hint->0);
        }
    }
    if p.node_id is Some {
        voter_at_is_first(p.voters@, p.node_id->0);
        let at = voter_at(p.voters@, p.node_id->0);
        if at < p.voters@.len() {
            assert(p.voters@[at].node_id == p.node_id->0);
        }
    }
}

/// The claimant that is taken is the first of the round: it names itself, and
/// nobody before it does.
pub proof fn the_first_claimant_is_taken(answers: Seq<Answer>, at: int)
    requires
        0 <= at < answers.len(),
        answers[at].probe.node_id is Some,
        answers[at].probe.leader_hint == answers[at].probe.node_id,
    ensures
        first_claim(answers) <= at,
        first_claim(answers) < answers.len(),
        answers[first_claim(answers)].probe.node_id is Some,
        answers[first_claim(answers)].probe.leader_hint == answers[first_claim(
            answers,
        )].probe.node_id,
        forall|j: int|
            0 <= j < first_claim(answers) ==> (#[trigger] answers[j]).probe.node_id is None
                || answers[j].probe.leader_hint != answers[j].probe.node_id,
{
    first_where_is_first(answers, |p: ProbeClusterResponse| claims(p));
    let first = first_claim(answers);
    assert forall|j: int| 0 <= j < first implies (#[trigger] answers[j]).probe.node_id is None
        || answers[j].probe.leader_hint != answers[j].probe.node_id by {
        assert(!claims(answers[j].probe));
    }
}

/// The fallback is the first candidate that is a voter of its own report; only
/// where none is, the first that reports any voter; and nobody only where no
/// candidate reports one.
pub proof fn the_fallback_is_the_best_that_answered(answers: Seq<Answer>)
    ensures
        0 <= fallback(answers) <= answers.len(),
        fallback(answers) < answers.len() ==> answers[fallback(answers)].probe.voters@.len() > 0,
        fallback(answers) == answers.len() ==> forall|j: int|
            0 <= j < answers.len() ==> (#[trigger] answers[j]).probe.voters@.len() == 0,
        (exists|j: int| 0 <= j < answers.len() && reports_itself((#[trigger] answers[j]).probe))
            ==> fallback(answers) < answers.len() && reports_itself(
            answers[fallback(answers)].probe,
        ) && forall|j: int|
            0 <= j < fallback(answers) ==> !reports_itself((#[trigger] answers[j]).probe),
        (forall|j: int| 0 <= j < answers.len() ==> !reports_itself((#[trigger] answers[j]).probe))
            ==> forall|j: int|
            0 <= j < fallback(answers) ==> (#[trigger] answers[j]).probe.voters@.len() == 0,
{
    let itself = |p: ProbeClusterResponse| reports_itself(p);
    let any = |p: ProbeClusterResponse| p.voters@.len() > 0;
    first_where_is_first(answers, itself);
    first_where_is_first(answers, any);
    let at = fallback(answers);
    if first_where(answers, itself) < answers.len() {
        assert(itself(answers[at].probe));
        a_hint_resolves_in_its_own_answer(answers[at].probe);
    } else {
        assert forall|j: int| 0 <= j < answers.len() implies !reports_itself(
            (#[trigger] answers[j]).probe,
        ) by {
            assert(!itself(answers[j].probe));
        }
        assert forall|j: int| 0 <= j < at implies (#[trigger] answers[j]).probe.voters@.len()
            == 0 by {
            assert(!any(answers[j].probe));
        }
    }
    if exists|j: int| 0 <= j < answers.len() && reports_itself((#[trigger] answers[j]).probe) {
        let j = choose|j: int|
            0 <= j < answers.len() && reports_itself((#[trigger] answers[j]).probe);
        assert(itself(answers[j].probe));
        assert forall|k: int| 0 <= k < at implies !reports_itself(
            (#[trigger] answers[k]).probe,
        ) by {
            assert(!itself(answers[k].probe));
        }
    }
}

/// The hinted endpoints are what the answers' own hints resolve to: each comes
/// from some answer, none is missing, and no address is asked twice.
pub proof fn hints_come_from_the_answers(answers: Seq<Answer>)
    ensures
        forall|k: int|
            0 <= k < hints_of(answers).len() ==> exists|i: int|
                0 <= i < answers.len() && resolves_hint((#[trigger] answers[i]).probe) && (
                #[trigger] hints_of(answers)[k]) == (
                    answers[i].probe.leader_hint->0,
                    hinted_addr(answers[i].probe),
                ),
        forall|i: int|
            0 <= i < answers.len() && resolves_hint((#[trigger] answers[i]).probe) ==> hint_listed(
                hints_of(answers),
                hinted_addr(answers[i].probe),
            ),
        forall|j: int, k: int|
            0 <= j < k < hints_of(answers).len() ==> (#[trigger] hints_of(answers)[j]).1 != (
            #[trigger] hints_of(answers)[k]).1,
    decreases answers.len(),
{
    if answers.len() > 0 {
        let rest = answers.drop_last();
        hints_come_from_the_answers(rest);
        let before = hints_of(rest);
        let all = hints_of(answers);
        let p = answers.last().probe;
        let last = answers.len() - 1;
        assert forall|k: int| 0 <= k < all.len() implies exists|i: int|
            0 <= i < answers.len() && resolves_hint((#[trigger] answers[i]).probe) && (
            #[trigger] all[k]) == (
                answers[i].probe.leader_hint->0,
                hinted_addr(answers[i].probe),
            ) by {
            if k < before.len() {
                assert(all[k] == before[k]);
                let i = choose|i: int|
                    0 <= i < rest.len() && resolves_hint((#[trigger] rest[i]).probe) && before[k]
                        == (rest[i].probe.leader_hint->0, hinted_addr(rest[i].probe));
                assert(answers[i] == rest[i]);
            } else {
                assert(answers[last].probe == p);
            }
        }
        assert forall|i: int|
            0 <= i < answers.len() && resolves_hint(
                (#[trigger] answers[i]).probe,
            ) implies hint_listed(all, hinted_addr(answers[i].probe)) by {
            if i < last {
                assert(rest[i] == answers[i]);
                assert(hint_listed(before, hinted_addr(rest[i].probe)));
                let k = choose|k: int|
                    0 <= k < before.len() && (#[trigger] before[k]).1 == hinted_addr(rest[i].probe);
                assert(all[k] == before[k]);
            } else if hint_listed(before, hinted_addr(p)) {
            } else {
                assert(all[before.len() as int].1 == hinted_addr(p));
            }
        }
        assert forall|j: int, k: int| 0 <= j < k < all.len() implies (#[trigger] all[j]).1 != (
        #[trigger] all[k]).1 by {
            if k < before.len() {
                assert(before[j].1 != before[k].1);
            } else {
                assert(all[j] == before[j]);
            }
        }
    }
}

/// A hinted endpoint is taken exactly when it answers for itself as the very
/// node that was hinted and claims to lead; then its own history is reported.
pub proof fn a_hint_must_answer_for_itself(
    search: &mut LeaderSearch,
    answer: Option<ProbeClusterResponse>,
    r: Option<(String, Vec<u8>)>,
)
    requires
        call_ensures(LeaderSearch::answered, (search, answer), r),
        old(search).hinting(),
    ensures
        r is Some <==> answer is Some && answer->0.node_id is Some && answer->0.node_id
            == answer->0.leader_hint && answer->0.node_id->0 == old(search).hints()[old(search).hints_asked() as int].0,
        r matches Some((addr, history)) ==> addr@ == old(search).hints()[old(search).hints_asked() as int].1 && history@ == answer->0.history_id@,
        final(search).hints_asked() == old(search).hints_asked() + 1,
        final(search).answers() == old(search).answers(),
{
}

/// While the round is collected every answer joins it under the address that
/// was asked, and nothing is taken yet.
pub proof fn a_round_is_collected_before_anything_is_chosen(
    search: &mut LeaderSearch,
    answer: Option<ProbeClusterResponse>,
    r: Option<(String, Vec<u8>)>,
)
    requires
        call_ensures(LeaderSearch::answered, (search, answer), r),
        !old(search).hinting(),
    ensures
        r is None,
        !final(search).hinting(),
        final(search).asked() == old(search).asked() + 1,
        answer is None ==> final(search).answers() == old(search).answers(),
        answer is Some ==> final(search).answers().len() == old(search).answers().len() + 1
            && final(search).answers().last().probe == answer->0 && final(search).answers().last().addr@ == old(search).candidates()[old(search).asked() as int]
            && final(search).answers().drop_last() == old(search).answers(),
{
}

/// The end of a search: a claimant of the round whenever there is one, and
/// only after every hint was asked a fallback, or nobody.
pub proof fn a_search_ends_on_a_claimant_or_after_every_hint(
    search: &mut LeaderSearch,
    r: SearchStep,
)
    requires
        call_ensures(LeaderSearch::advance, (search,), r),
        !(r is Probe),
    ensures
        final(search).answers() == old(search).answers(),
        final(search).asked() >= final(search).candidates().len() || final(search).hinting(),
        (exists|i: int|
            0 <= i < final(search).answers().len() && claims(
                (#[trigger] final(search).answers()[i]).probe,
            )) ==> (r matches SearchStep::Found { addr, .. } && exists|i: int|
            0 <= i < final(search).answers().len() && claims(
                (#[trigger] final(search).answers()[i]).probe,
            ) && addr@ == final(search).answers()[i].addr@),
        (forall|i: int|
            0 <= i < final(search).answers().len() ==> !claims(
                (#[trigger] final(search).answers()[i]).probe,
            )) ==> final(search).hinting() && final(search).hints_asked() >= final(search).hints().len() && final(search).hints() == hints_of(final(search).answers()),
        r matches SearchStep::Found { addr, history } ==> exists|i: int|
            0 <= i < final(search).answers().len() && (
            #[trigger] final(search).answers()[i]).addr@ == addr@ && final(search).answers()[i].probe.history_id@ == history@,
{
    let answers = final(search).answers();
    first_where_is_first(answers, |p: ProbeClusterResponse| claims(p));
    let first = first_claim(answers);
    if exists|i: int| 0 <= i < answers.len() && claims((#[trigger] answers[i]).probe) {
        let i = choose|i: int| 0 <= i < answers.len() && claims((#[trigger] answers[i]).probe);
        assert(claims(answers[i].probe));
        assert(first < answers.len());
        assert(claims(answers[first].probe));
    } else {
        if first < answers.len() {
            assert(claims(answers[first].probe));
        }
    }
}

/// Whom to dial from what membership names: nobody twice, every other member,
/// and nobody that is not a member; the believed leader first where membership
/// seats it.
pub proof fn targets_are_the_other_members(summary: ClusterSummary, r: Vec<String>, k: int)
    requires
        call_ensures(dial_targets, (&summary,), r),
    ensures
        text::views(r@).no_duplicates(),
        forall|i: int|
            0 <= i < summary.members@.len() && (#[trigger] summary.members@[i]).id
                != summary.local_id ==> text::views(r@).contains(summary.members@[i].addr@),
        0 <= k < r@.len() ==> exists|i: int|
            0 <= i < summary.members@.len() && (#[trigger] summary.members@[i]).addr@
                == text::views(r@)[k] && (summary.members@[i].id != summary.local_id
                || summary.leader == Some(summary.members@[i].id)),
        summary.leader matches Some(l) && summary.seats(l) ==> r@.len() > 0 && text::views(r@)[0]
            == summary.members@[summary.seat_of(summary.leader->0)].addr@,
{
    targets_are_distinct(summary);
    assert forall|i: int|
        0 <= i < summary.members@.len() && (#[trigger] summary.members@[i]).id
            != summary.local_id implies text::views(r@).contains(summary.members@[i].addr@) by {
        targets_cover_membership(summary, i);
    }
    others_keep(summary.members@, summary.local_id, leader_addr(summary));
    if 0 <= k < r@.len() {
        others_are_members(summary.members@, summary.local_id, leader_addr(summary), k);
        if leader_addr(summary).contains(known_targets(summary)[k]) {
            let l = summary.leader->0;
            crate::cluster::a_seat_is_a_members_id(summary, l);
            assert(summary.members@[summary.seat_of(l)].addr@ == known_targets(summary)[k]);
        }
    }
}

proof fn others_are_members(members: Seq<MemberSummary>, local: u64, start: Seq<Seq<char>>, k: int)
    requires
        0 <= k < other_addrs(members, local, start).len(),
    ensures
        start.contains(other_addrs(members, local, start)[k]) || exists|i: int|
            0 <= i < members.len() && (#[trigger] members[i]).addr@ == other_addrs(
                members,
                local,
                start,
            )[k] && members[i].id != local,
    decreases members.len(),
{
    if members.len() == 0 {
        assert(start[k] == other_addrs(members, local, start)[k]);
    } else {
        let rest = members.drop_last();
        let before = other_addrs(rest, local, start);
        let x = other_addrs(members, local, start)[k];
        if k < before.len() {
            others_are_members(rest, local, start, k);
            if !start.contains(x) {
                let i = choose|i: int|
                    0 <= i < rest.len() && (#[trigger] rest[i]).addr@ == x && rest[i].id != local;
                assert(members[i] == rest[i]);
            }
        } else {
            assert(members[members.len() - 1].addr@ == x);
        }
    }
}

/// Discovery seeds everyone it names but this very process.
pub proof fn seeds_are_everyone_else(candidates: Vec<String>, own: &str, x: Seq<char>, r: Vec<String>)
    requires
        call_ensures(seed_targets, (&candidates, own), r),
    ensures
        text::views(r@).contains(x) <==> text::views(candidates@).contains(x) && x != own@,
        r@.len() <= candidates@.len(),
        !text::views(candidates@).contains(own@) ==> text::views(r@) == text::views(candidates@),
{
    let all = text::views(candidates@);
    let keep = |c: Seq<char>| c != own@;
    filter_keeps(all, own@, x);
    assert(text::views(r@).len() == r@.len());
    assert(all.len() == candidates@.len());
}

/// Leaving out this process leaves out nobody else.
pub proof fn filter_keeps(all: Seq<Seq<char>>, own: Seq<char>, x: Seq<char>)
    ensures
        without_own(all, own).contains(x) <==> all.contains(x) && x != own,
        without_own(all, own).len() <= all.len(),
        !all.contains(own) ==> without_own(all, own) == all,
    decreases all.len(),
{
    reveal(Seq::filter);
    let keep = |c: Seq<char>| c != own;
    if all.len() == 0 {
        assert(without_own(all, own) =~= all);
    } else {
        let rest = all.drop_last();
        let last = all.last();
        filter_keeps(rest, own, x);
        let before = without_own(rest, own);
        assert(all =~= rest.push(last));
        if last != own {
            assert(without_own(all, own) == before.push(last));
            if before.contains(x) {
                let i = choose|i: int| 0 <= i < before.len() && before[i] == x;
                assert(before.push(last)[i] == x);
            }
            if x == last {
                assert(before.push(last)[before.len() as int] == x);
            }
        } else {
            assert(without_own(all, own) == before);
        }
        if rest.contains(x) {
            let i = choose|i: int| 0 <= i < rest.len() && rest[i] == x;
            assert(all[i] == x);
        }
        if all.contains(x) && x != last {
            let i = choose|i: int| 0 <= i < all.len() && all[i] == x;
            assert(rest[i] == x);
        }
        if !all.contains(own) {
            assert(all[all.len() - 1] == last);
            if rest.contains(own) {
                let i = choose|i: int| 0 <= i < rest.len() && rest[i] == own;
                assert(all[i] == own);
            }
        }
    }
}

} // verus!
