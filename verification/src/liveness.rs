//! Node liveness, as the leader of one term knows it.
//!
//! What is held belongs to a single leadership term: a newer term replaces it
//! whole, and what comes in for an older one is dropped. Two clocks are kept of
//! each node on purpose: a monotonic one that backs every deadline, and the
//! wall-clock stamp of its last report, which is shown and never compared.

use vstd::prelude::*;

use crate::cluster::NodeId;
use crate::time::Duration;

verus! {

/// What is remembered of one node.
#[derive(Debug, Clone, Copy, PartialEq, Eq, Structural)]
pub struct Seen {
    /// The last report or grant, as time since some fixed instant.
    pub instant: Duration,
    /// The wall-clock stamp of the last report, in microseconds; absent for a
    /// node that was only granted grace.
    pub heartbeat_at: Option<i64>,
}

/// What a reader is told of one node.
#[derive(Debug, Clone, Copy, PartialEq, Eq, Structural)]
pub struct LivenessMark {
    pub last_heartbeat: Option<i64>,
    pub silent_for: Duration,
}

/// Every node the leader of one term tracks.
#[derive(Debug)]
pub struct NodeLiveness {
    term: Option<u64>,
    /// Ascending by node, each once.
    nodes: Vec<(u128, Seen)>,
}

/// The term held, and what is remembered of each node in it.
#[verifier::ext_equal]
pub struct LivenessView {
    pub term: Option<u64>,
    pub nodes: Map<u128, Seen>,
}

/// Whether the nodes ascend, each once.
pub open spec fn ascending(nodes: Seq<(u128, Seen)>) -> bool {
    forall|i: int, j: int|
        0 <= i < j < nodes.len() ==> (#[trigger] nodes[i]).0 < (#[trigger] nodes[j]).0
}

/// What a list remembers of each node.
pub open spec fn remembered(nodes: Seq<(u128, Seen)>) -> Map<u128, Seen>
    decreases nodes.len(),
{
    if nodes.len() == 0 {
        Map::empty()
    } else {
        remembered(nodes.drop_last()).insert(nodes.last().0, nodes.last().1)
    }
}

impl View for NodeLiveness {
    type V = LivenessView;

    closed spec fn view(&self) -> LivenessView {
        LivenessView { term: self.term, nodes: remembered(self.nodes@) }
    }
}

/// What is held once a writer of `term` came: the same within the term,
/// nothing of before in a newer one, and nothing at all for an older.
pub open spec fn entered(held: LivenessView, term: u64) -> Option<LivenessView> {
    match held.term {
        Some(t) => if t == term {
            Some(held)
        } else if t > term {
            None
        } else {
            Some(LivenessView { term: Some(term), nodes: Map::empty() })
        },
        None => Some(LivenessView { term: Some(term), nodes: Map::empty() }),
    }
}

/// What is held after a report.
pub open spec fn marked(held: LivenessView, term: u64, node: u128, seen: Seen) -> LivenessView {
    match entered(held, term) {
        Some(v) => LivenessView { term: v.term, nodes: v.nodes.insert(node, seen) },
        None => held,
    }
}

/// The nodes with a grant for each that has nothing yet.
pub open spec fn granted(nodes: Map<u128, Seen>, known: Seq<NodeId>, grant: Seen) -> Map<
    u128,
    Seen,
>
    decreases known.len(),
{
    if known.len() == 0 {
        nodes
    } else {
        let before = granted(nodes, known.drop_last(), grant);
        if before.dom().contains(known.last().id) {
            before
        } else {
            before.insert(known.last().id, grant)
        }
    }
}

/// What is held after grants to the known nodes.
pub open spec fn seeded(held: LivenessView, term: u64, known: Seq<NodeId>, now: Duration) -> LivenessView {
    match entered(held, term) {
        Some(v) => LivenessView {
            term: v.term,
            nodes: granted(v.nodes, known, Seen { instant: now, heartbeat_at: None }),
        },
        None => held,
    }
}

/// The silence of a node: how long ago its last report or grant was, and
/// nothing for a reader that looks from before it.
pub open spec fn silence(seen: Seen, now: nat) -> nat {
    if now >= seen.instant@ {
        (now - seen.instant@) as nat
    } else {
        0
    }
}

// ---------------------------------------------------------------------------
// The list as a map
// ---------------------------------------------------------------------------

proof fn remembers_its_entries(nodes: Seq<(u128, Seen)>)
    requires
        ascending(nodes),
    ensures
        forall|i: int|
            0 <= i < nodes.len() ==> remembered(nodes).dom().contains((#[trigger] nodes[i]).0)
                && remembered(nodes)[nodes[i].0] == nodes[i].1,
        forall|k: u128|
            remembered(nodes).dom().contains(k) ==> exists|i: int|
                0 <= i < nodes.len() && (#[trigger] nodes[i]).0 == k,
    decreases nodes.len(),
{
    if nodes.len() > 0 {
        let rest = nodes.drop_last();
        assert(ascending(rest)) by {
            assert forall|i: int, j: int| 0 <= i < j < rest.len() implies (#[trigger] rest[i]).0 < (
            #[trigger] rest[j]).0 by {
                assert(nodes[i].0 < nodes[j].0);
            }
        }
        remembers_its_entries(rest);
        let last = nodes.len() - 1;
        assert forall|i: int| 0 <= i < nodes.len() implies remembered(nodes).dom().contains(
            (#[trigger] nodes[i]).0,
        ) && remembered(nodes)[nodes[i].0] == nodes[i].1 by {
            if i < last {
                assert(rest[i] == nodes[i]);
                assert(nodes[i].0 < nodes[last].0);
            }
        }
        assert forall|k: u128| remembered(nodes).dom().contains(k) implies exists|i: int|
            0 <= i < nodes.len() && (#[trigger] nodes[i]).0 == k by {
            if k == nodes[last].0 {
                assert(nodes[last].0 == k);
            } else {
                assert(remembered(rest).dom().contains(k));
                let i = choose|i: int| 0 <= i < rest.len() && (#[trigger] rest[i]).0 == k;
                assert(rest[i].0 == k);
                assert(nodes[i] == rest[i]);
            }
        }
    }
}

/// A list that remembers the same entries remembers the same map.
proof fn same_memory(nodes: Seq<(u128, Seen)>, m: Map<u128, Seen>)
    requires
        ascending(nodes),
        forall|i: int|
            0 <= i < nodes.len() ==> m.dom().contains((#[trigger] nodes[i]).0) && m[nodes[i].0]
                == nodes[i].1,
        forall|k: u128|
            m.dom().contains(k) ==> exists|i: int|
                0 <= i < nodes.len() && (#[trigger] nodes[i]).0 == k,
    ensures
        remembered(nodes) == m,
{
    remembers_its_entries(nodes);
    let r = remembered(nodes);
    assert forall|k: u128| r.dom().contains(k) <==> m.dom().contains(k) by {
        if r.dom().contains(k) {
            let i = choose|i: int| 0 <= i < nodes.len() && (#[trigger] nodes[i]).0 == k;
            assert(m.dom().contains(nodes[i].0));
        }
        if m.dom().contains(k) {
            let i = choose|i: int| 0 <= i < nodes.len() && (#[trigger] nodes[i]).0 == k;
            assert(r.dom().contains(nodes[i].0));
        }
    }
    assert forall|k: u128| r.dom().contains(k) implies r[k] == m[k] by {
        let i = choose|i: int| 0 <= i < nodes.len() && (#[trigger] nodes[i]).0 == k;
        assert(r[nodes[i].0] == nodes[i].1);
        assert(m[nodes[i].0] == nodes[i].1);
    }
    assert(r =~= m);
}

/// Where a node stands in the list, or where it would.
fn position(nodes: &Vec<(u128, Seen)>, node: u128) -> (r: (usize, bool))
    requires
        ascending(nodes@),
    ensures
        r.0 <= nodes@.len(),
        forall|i: int| 0 <= i < r.0 ==> (#[trigger] nodes@[i]).0 < node,
        r.1 ==> r.0 < nodes@.len() && nodes@[r.0 as int].0 == node,
        !r.1 ==> forall|i: int| r.0 <= i < nodes@.len() ==> (#[trigger] nodes@[i]).0 > node,
{
    let mut i: usize = 0;
    while i < nodes.len()
        invariant
            i <= nodes@.len(),
            ascending(nodes@),
            forall|j: int| 0 <= j < i ==> (#[trigger] nodes@[j]).0 < node,
        decreases nodes@.len() - i,
    {
        if nodes[i].0 == node {
            return (i, true);
        }
        if nodes[i].0 > node {
            assert forall|j: int| i <= j < nodes@.len() implies (#[trigger] nodes@[j]).0
                > node by {
                if j > i {
                    assert(nodes@[i as int].0 < nodes@[j].0);
                }
            }
            return (i, false);
        }
        i = i + 1;
    }
    (i, false)
}

/// Remember a node anew.
fn put(nodes: &mut Vec<(u128, Seen)>, node: u128, seen: Seen)
    requires
        ascending(old(nodes)@),
    ensures
        ascending(final(nodes)@),
        remembered(final(nodes)@) == remembered(old(nodes)@).insert(node, seen),
{
    let (at, found) = position(nodes, node);
    let ghost before = nodes@;
    proof {
        remembers_its_entries(before);
    }
    if found {
        nodes.set(at, (node, seen));
    } else {
        nodes.insert(at, (node, seen));
    }
    proof {
        let after = nodes@;
        let m = remembered(before).insert(node, seen);
        let shift = if found {
            0int
        } else {
            1int
        };
        assert forall|i: int, j: int| 0 <= i < j < after.len() implies (#[trigger] after[i]).0 < (
        #[trigger] after[j]).0 by {
            let p = if i <= at {
                i
            } else {
                i - shift
            };
            let q = if j <= at {
                j
            } else {
                j - shift
            };
            if found {
                assert(before[i].0 < before[j].0);
            } else if i != at && j != at {
                assert(before[p].0 < before[q].0);
            } else if i == at {
                assert(before[q].0 > node);
            } else {
                assert(before[p].0 < node);
            }
        }
        assert forall|i: int| 0 <= i < after.len() implies m.dom().contains((#[trigger] after[i]).0)
            && m[after[i].0] == after[i].1 by {
            if i != at {
                let p = if i < at {
                    i
                } else {
                    i - shift
                };
                assert(after[i] == before[p]);
                assert(remembered(before).dom().contains(before[p].0));
            }
        }
        assert forall|k: u128| m.dom().contains(k) implies exists|i: int|
            0 <= i < after.len() && (#[trigger] after[i]).0 == k by {
            if k == node {
                assert(after[at as int].0 == k);
            } else {
                let p = choose|p: int| 0 <= p < before.len() && (#[trigger] before[p]).0 == k;
                let i = if p < at {
                    p
                } else {
                    p + shift
                };
                assert(after[i].0 == k);
            }
        }
        same_memory(after, m);
    }
}

// ---------------------------------------------------------------------------
// The operations
// ---------------------------------------------------------------------------

impl NodeLiveness {
    #[verifier::type_invariant]
    spec fn wf(self) -> bool {
        ascending(self.nodes@)
    }

    pub fn new() -> (r: NodeLiveness)
        ensures
            r@.term is None,
            r@.nodes == Map::<u128, Seen>::empty(),
    {
        NodeLiveness { term: None, nodes: Vec::new() }
    }

    /// Record that `node` was just heard from by the leader of `term`, at
    /// `now` on the monotonic clock and `wall` on the other. A report for an
    /// older term is dropped; one for a newer term begins it.
    pub fn mark(&mut self, term: u64, node: NodeId, now: Duration, wall: i64)
        ensures
            final(self)@ == marked(
                old(self)@,
                term,
                node.id,
                Seen { instant: now, heartbeat_at: Some(wall) },
            ),
            old(self)@.term is None || old(self)@.term->0 <= term ==> {
                &&& final(self)@.term == Some(term)
                &&& final(self)@.nodes.dom().contains(node.id)
                &&& final(self)@.nodes[node.id].instant == now
                &&& final(self)@.nodes[node.id].heartbeat_at == Some(wall)
            },
    {
        proof {
            use_type_invariant(&*self);
        }
        let mut nodes: Vec<(u128, Seen)> = match self.term {
            Some(held) => {
                if held > term {
                    return;
                }
                if held == term {
                    let mut taken: Vec<(u128, Seen)> = Vec::new();
                    std::mem::swap(&mut taken, &mut self.nodes);
                    taken
                } else {
                    Vec::new()
                }
            },
            None => Vec::new(),
        };
        put(&mut nodes, node.id, Seen { instant: now, heartbeat_at: Some(wall) });
        *self = NodeLiveness { term: Some(term), nodes };
        assert(self@ =~= marked(
            old(self)@,
            term,
            node.id,
            Seen { instant: now, heartbeat_at: Some(wall) },
        ));
    }

    /// On gaining leadership of `term`, grant every known node a fresh grace
    /// window, so that none is declared lost before its first report. A node
    /// that was heard in this term already keeps its report. A grant is no
    /// report, and carries no heartbeat.
    pub fn seed(&mut self, term: u64, known: &Vec<NodeId>, now: Duration)
        ensures
            final(self)@ == seeded(old(self)@, term, known@, now),
            old(self)@.term is None || old(self)@.term->0 <= term ==> final(self)@.term == Some(
                term,
            ),
    {
        proof {
            use_type_invariant(&*self);
        }
        let ghost held = self@;
        let mut nodes: Vec<(u128, Seen)> = match self.term {
            Some(held) => {
                if held > term {
                    return;
                }
                if held == term {
                    let mut taken: Vec<(u128, Seen)> = Vec::new();
                    std::mem::swap(&mut taken, &mut self.nodes);
                    taken
                } else {
                    Vec::new()
                }
            },
            None => Vec::new(),
        };
        let ghost start = remembered(nodes@);
        let grant = Seen { instant: now, heartbeat_at: None };
        let mut i: usize = 0;
        assert(granted(start, known@.subrange(0, 0), grant) == start);
        while i < known.len()
            invariant
                i <= known@.len(),
                ascending(nodes@),
                remembered(nodes@) == granted(start, known@.subrange(0, i as int), grant),
            decreases known@.len() - i,
        {
            assert(known@.subrange(0, i + 1).drop_last() =~= known@.subrange(0, i as int));
            let (at, found) = position(&nodes, known[i].id);
            proof {
                remembers_its_entries(nodes@);
                let ghost id = known@[i as int].id;
                if found {
                    assert(nodes@[at as int].0 == id);
                    assert(remembered(nodes@).dom().contains(id));
                } else if remembered(nodes@).dom().contains(id) {
                    let k = choose|k: int|
                        0 <= k < nodes@.len() && (#[trigger] nodes@[k]).0 == id;
                    assert(nodes@[k].0 == id);
                }
            }
            if !found {
                put(&mut nodes, known[i].id, grant);
            }
            i = i + 1;
        }
        assert(known@.subrange(0, known@.len() as int) =~= known@);
        *self = NodeLiveness { term: Some(term), nodes };
        assert(self@ =~= seeded(held, term, known@, now));
    }

    /// When `node` was last heard from, or granted grace, in the term held.
    pub fn last_seen(&self, node: NodeId) -> (r: Option<Duration>)
        ensures
            r == (if self@.nodes.dom().contains(node.id) {
                Some(self@.nodes[node.id].instant)
            } else {
                None
            }),
    {
        proof {
            use_type_invariant(self);
            remembers_its_entries(self.nodes@);
        }
        let (at, found) = position(&self.nodes, node.id);
        if found {
            Some(self.nodes[at].1.instant)
        } else {
            proof {
                if remembered(self.nodes@).dom().contains(node.id) {
                    let k = choose|k: int|
                        0 <= k < self.nodes@.len() && (#[trigger] self.nodes@[k]).0 == node.id;
                    assert(self.nodes@[k].0 == node.id);
                }
            }
            None
        }
    }

    /// Every node the leader of `term` tracks, in ascending order, as of
    /// `now`. Nothing for any other term: there are no marks this replica can
    /// vouch for.
    pub fn snapshot(&self, term: u64, now: &Duration) -> (r: Vec<(NodeId, LivenessMark)>)
        ensures
            self@.term != Some(term) ==> r@.len() == 0,
            self@.term == Some(term) ==> {
                &&& forall|i: int|
                    0 <= i < r@.len() ==> {
                        let seen = self@.nodes[(#[trigger] r@[i]).0.id];
                        &&& self@.nodes.dom().contains(r@[i].0.id)
                        &&& r@[i].1.last_heartbeat == seen.heartbeat_at
                        &&& r@[i].1.silent_for@ == silence(seen, now@)
                    }
                &&& forall|k: u128|
                    self@.nodes.dom().contains(k) ==> exists|i: int|
                        0 <= i < r@.len() && (#[trigger] r@[i]).0.id == k
                &&& forall|i: int, j: int|
                    0 <= i < j < r@.len() ==> (#[trigger] r@[i]).0.id < (#[trigger] r@[j]).0.id
            },
    {
        proof {
            use_type_invariant(self);
            remembers_its_entries(self.nodes@);
        }
        let mut out: Vec<(NodeId, LivenessMark)> = Vec::new();
        let ours = match self.term {
            Some(held) => held == term,
            None => false,
        };
        if !ours {
            return out;
        }
        let mut i: usize = 0;
        while i < self.nodes.len()
            invariant
                i <= self.nodes@.len(),
                out@.len() == i,
                forall|j: int|
                    0 <= j < i ==> {
                        &&& (#[trigger] out@[j]).0.id == self.nodes@[j].0
                        &&& out@[j].1.last_heartbeat == self.nodes@[j].1.heartbeat_at
                        &&& out@[j].1.silent_for@ == silence(self.nodes@[j].1, now@)
                    },
            decreases self.nodes@.len() - i,
        {
            let (id, seen) = self.nodes[i];
            out.push(
                (
                    NodeId { id },
                    LivenessMark {
                        last_heartbeat: seen.heartbeat_at,
                        silent_for: now.saturating_sub(seen.instant),
                    },
                ),
            );
            i = i + 1;
        }
        proof {
            let nodes = self.nodes@;
            assert forall|k: u128| self@.nodes.dom().contains(k) implies exists|i: int|
                0 <= i < out@.len() && (#[trigger] out@[i]).0.id == k by {
                let i = choose|i: int| 0 <= i < nodes.len() && (#[trigger] nodes[i]).0 == k;
                assert(out@[i].0.id == k);
            }
            assert forall|i: int, j: int| 0 <= i < j < out@.len() implies (#[trigger] out@[i]).0.id
                < (#[trigger] out@[j]).0.id by {
                assert(nodes[i].0 < nodes[j].0);
            }
        }
        out
    }
}

// ---------------------------------------------------------------------------
// What the terms give
// ---------------------------------------------------------------------------

/// A report for a term this replica has moved past is no evidence: it changes
/// nothing, and neither does a grant.
pub proof fn stale_terms_change_nothing(
    held: LivenessView,
    term: u64,
    node: u128,
    seen: Seen,
    known: Seq<NodeId>,
    now: Duration,
)
    requires
        held.term is Some,
        held.term->0 > term,
    ensures
        marked(held, term, node, seen) == held,
        seeded(held, term, known, now) == held,
{
}

/// A newer term starts from nothing: whatever a prior term knew of a node that
/// this term has not seen is gone.
pub proof fn a_new_term_starts_over(
    held: LivenessView,
    term: u64,
    node: u128,
    seen: Seen,
    other: u128,
)
    requires
        held.term is None || held.term->0 < term,
        other != node,
    ensures
        marked(held, term, node, seen).term == Some(term),
        !marked(held, term, node, seen).nodes.dom().contains(other),
{
}

proof fn grants_keep_what_is_there(
    nodes: Map<u128, Seen>,
    known: Seq<NodeId>,
    grant: Seen,
    node: u128,
)
    ensures
        nodes.dom().contains(node) ==> granted(nodes, known, grant).dom().contains(node)
            && granted(nodes, known, grant)[node] == nodes[node],
        !nodes.dom().contains(node) && granted(nodes, known, grant).dom().contains(node)
            ==> granted(nodes, known, grant)[node] == grant,
    decreases known.len(),
{
    if known.len() > 0 {
        grants_keep_what_is_there(nodes, known.drop_last(), grant, node);
    }
}

/// A grant neither fabricates a heartbeat nor erases one: a node heard in this
/// term keeps its report, and a node that was only granted grace has none.
pub proof fn grants_are_no_heartbeats(
    held: LivenessView,
    term: u64,
    known: Seq<NodeId>,
    now: Duration,
    node: u128,
)
    requires
        held.term == Some(term),
    ensures
        held.nodes.dom().contains(node) ==> seeded(held, term, known, now).nodes.dom().contains(
            node,
        ) && seeded(held, term, known, now).nodes[node] == held.nodes[node],
        !held.nodes.dom().contains(node) && seeded(held, term, known, now).nodes.dom().contains(
            node,
        ) ==> seeded(held, term, known, now).nodes[node].heartbeat_at is None,
{
    grants_keep_what_is_there(
        held.nodes,
        known,
        Seen { instant: now, heartbeat_at: None },
        node,
    );
}

/// A report is always taken down: unless a newer term is held, the node is
/// afterwards tracked in the report's term, last heard at the report's instant
/// and with its stamp, whether it was tracked before or not. Within the term
/// nothing else changes of any other node; in a newer term nothing else is
/// left.
pub proof fn a_report_is_always_taken_down(
    held: LivenessView,
    term: u64,
    node: u128,
    seen: Seen,
    other: u128,
)
    requires
        held.term is None || held.term->0 <= term,
    ensures
        ({
            let after = marked(held, term, node, seen);
            &&& after.term == Some(term)
            &&& after.nodes.dom().contains(node)
            &&& after.nodes[node] == seen
            &&& other != node && held.term == Some(term) ==> {
                &&& after.nodes.dom().contains(other) <==> held.nodes.dom().contains(other)
                &&& held.nodes.dom().contains(other) ==> after.nodes[other] == held.nodes[other]
            }
            &&& other != node && held.term != Some(term) ==> !after.nodes.dom().contains(other)
        }),
{
}

proof fn a_grant_reaches_whom_it_names(
    nodes: Map<u128, Seen>,
    known: Seq<NodeId>,
    grant: Seen,
    node: u128,
)
    ensures
        granted(nodes, known, grant).dom().contains(node) <==> nodes.dom().contains(node) || exists|
            i: int,
        |
            0 <= i < known.len() && (#[trigger] known[i]).id == node,
    decreases known.len(),
{
    if known.len() > 0 {
        let rest = known.drop_last();
        a_grant_reaches_whom_it_names(nodes, rest, grant, node);
        if known.last().id == node {
            assert(known[known.len() - 1].id == node);
        }
        if exists|i: int| 0 <= i < rest.len() && (#[trigger] rest[i]).id == node {
            let i = choose|i: int| 0 <= i < rest.len() && (#[trigger] rest[i]).id == node;
            assert(known[i].id == node);
        }
        if exists|i: int| 0 <= i < known.len() && (#[trigger] known[i]).id == node {
            let i = choose|i: int| 0 <= i < known.len() && (#[trigger] known[i]).id == node;
            if i < rest.len() {
                assert(rest[i].id == node);
            }
        }
    }
}

/// Grace is granted to every known node from the instant of the grant, and to
/// no other: unless a newer term is held, a known node that this term had not
/// heard is tracked from `now` without a heartbeat, one it had heard keeps its
/// report, and who is not known is tracked only if this term had heard them.
pub proof fn grace_is_granted_to_the_known(
    held: LivenessView,
    term: u64,
    known: Seq<NodeId>,
    now: Duration,
    node: u128,
)
    requires
        held.term is None || held.term->0 <= term,
    ensures
        ({
            let after = seeded(held, term, known, now);
            let heard = held.term == Some(term) && held.nodes.dom().contains(node);
            let listed = exists|i: int| 0 <= i < known.len() && (#[trigger] known[i]).id == node;
            &&& after.term == Some(term)
            &&& after.nodes.dom().contains(node) <==> heard || listed
            &&& heard ==> after.nodes[node] == held.nodes[node]
            &&& !heard && listed ==> after.nodes[node].instant == now
                && after.nodes[node].heartbeat_at is None
        }),
{
    let grant = Seen { instant: now, heartbeat_at: None };
    let start = entered(held, term)->0.nodes;
    a_grant_reaches_whom_it_names(start, known, grant, node);
    grants_keep_what_is_there(start, known, grant, node);
}

/// What is shown of a node is what is remembered of it: its last report's
/// stamp, and how long before `now` it was last heard or granted. Nothing is
/// shown of another term.
pub proof fn what_is_shown_is_what_is_remembered(
    held: NodeLiveness,
    term: u64,
    now: Duration,
    node: NodeId,
    at: Option<Duration>,
    shown: Vec<(NodeId, LivenessMark)>,
    i: int,
)
    requires
        call_ensures(NodeLiveness::last_seen, (&held, node), at),
        call_ensures(NodeLiveness::snapshot, (&held, term, &now), shown),
        0 <= i < shown@.len(),
        shown@[i].0 == node,
    ensures
        held@.term == Some(term),
        held@.nodes.dom().contains(node.id),
        at == Some(held@.nodes[node.id].instant),
        shown@[i].1.last_heartbeat == held@.nodes[node.id].heartbeat_at,
        now@ >= at->0@ ==> shown@[i].1.silent_for@ == now@ - at->0@,
        now@ < at->0@ ==> shown@[i].1.silent_for@ == 0,
{
}

/// Every node tracked in the term is shown, each once and in ascending order.
pub proof fn every_tracked_node_is_shown_once(
    held: NodeLiveness,
    term: u64,
    now: Duration,
    node: u128,
    shown: Vec<(NodeId, LivenessMark)>,
)
    requires
        call_ensures(NodeLiveness::snapshot, (&held, term, &now), shown),
    ensures
        held@.term == Some(term) ==> (held@.nodes.dom().contains(node) <==> exists|i: int|
            0 <= i < shown@.len() && (#[trigger] shown@[i]).0.id == node),
        held@.term != Some(term) ==> shown@.len() == 0,
        forall|i: int, j: int|
            0 <= i < j < shown@.len() ==> (#[trigger] shown@[i]).0.id < (#[trigger] shown@[j]).0.id,
{
}

/// A report through [`NodeLiveness::mark`] leaves the node heard at exactly
/// that instant with exactly that stamp, whatever was remembered of it, unless
/// a newer term is held, where it leaves everything as it was.
pub proof fn a_marked_node_was_just_heard(
    held: &mut NodeLiveness,
    term: u64,
    node: NodeId,
    now: Duration,
    wall: i64,
    other: u128,
)
    requires
        call_ensures(NodeLiveness::mark, (held, term, node, now, wall), ()),
    ensures
        old(held)@.term is None || old(held)@.term->0 <= term ==> {
            &&& final(held)@.term == Some(term)
            &&& final(held)@.nodes.dom().contains(node.id)
            &&& final(held)@.nodes[node.id].instant == now
            &&& final(held)@.nodes[node.id].heartbeat_at == Some(wall)
        },
        old(held)@.term == Some(term) && other != node.id ==> {
            &&& final(held)@.nodes.dom().contains(other) <==> old(held)@.nodes.dom().contains(other)
            &&& old(held)@.nodes.dom().contains(other) ==> final(held)@.nodes[other]
                == old(held)@.nodes[other]
        },
        old(held)@.term matches Some(t) && t > term ==> final(held)@ == old(held)@,
{
}

/// A grant through [`NodeLiveness::seed`] reaches every known node that this
/// term had not heard, and changes nothing of one it had.
pub proof fn a_seeded_node_has_its_grace(
    held: &mut NodeLiveness,
    term: u64,
    known: Vec<NodeId>,
    now: Duration,
    at: int,
)
    requires
        call_ensures(NodeLiveness::seed, (held, term, &known, now), ()),
        0 <= at < known@.len(),
        old(held)@.term is None || old(held)@.term->0 <= term,
    ensures
        final(held)@.term == Some(term),
        final(held)@.nodes.dom().contains(known@[at].id),
        old(held)@.term == Some(term) && old(held)@.nodes.dom().contains(known@[at].id)
            ==> final(held)@.nodes[known@[at].id] == old(held)@.nodes[known@[at].id],
        !(old(held)@.term == Some(term) && old(held)@.nodes.dom().contains(known@[at].id))
            ==> final(held)@.nodes[known@[at].id].instant == now && final(held)@.nodes[known@[at].id].heartbeat_at is None,
{
    grace_is_granted_to_the_known(old(held)@, term, known@, now, known@[at].id);
    assert(known@[at].id == known@[at].id);
}

/// A node was last seen at the instant remembered of it, and one that nothing
/// is remembered of was never seen; a fresh memory holds nothing.
pub proof fn only_the_remembered_were_seen(
    held: NodeLiveness,
    fresh: NodeLiveness,
    node: NodeId,
    r: Option<Duration>,
)
    requires
        call_ensures(NodeLiveness::last_seen, (&held, node), r),
        call_ensures(NodeLiveness::new, (), fresh),
    ensures
        r is Some <==> held@.nodes.dom().contains(node.id),
        r matches Some(at) ==> at == held@.nodes[node.id].instant,
        fresh@.term is None && !fresh@.nodes.dom().contains(node.id),
{
}

} // verus!
