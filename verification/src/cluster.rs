//! What a replica knows of its cluster: identities, the membership summary,
//! and the failures of the consensus seam.

use vstd::prelude::*;
use vstd::string::*;

use crate::text;

verus! {

/// The machine identity of one coordinator installation.
#[derive(Debug, Clone, Copy, PartialEq, Eq, Structural)]
pub struct MachineId {
    pub id: u128,
}

/// The identity of one compute node.
#[derive(Debug, Clone, Copy, PartialEq, Eq, Structural)]
pub struct NodeId {
    pub id: u128,
}

/// The big-endian bytes of `v`, the last `n` of them.
pub open spec fn low_bytes(v: nat, n: nat) -> Seq<u8>
    decreases n,
{
    if n == 0 {
        Seq::empty()
    } else {
        low_bytes(v / 256, (n - 1) as nat).push((v % 256) as u8)
    }
}

/// Sixteen bytes in the hyphenated lowercase form of an identifier: eight,
/// four, four, four and twelve hexadecimal digits.
pub open spec fn hyphenated(b: Seq<u8>) -> Seq<char> {
    text::hex_of(b.subrange(0, 4)) + "-"@ + text::hex_of(b.subrange(4, 6)) + "-"@ + text::hex_of(
        b.subrange(6, 8),
    ) + "-"@ + text::hex_of(b.subrange(8, 10)) + "-"@ + text::hex_of(b.subrange(10, 16))
}

/// The hyphenated lowercase form of a 128-bit identifier.
pub open spec fn uuid_of(v: u128) -> Seq<char> {
    hyphenated(low_bytes(v as nat, 16))
}

/// The sixteen big-endian bytes of `v`.
pub fn id_bytes(v: u128) -> (r: Vec<u8>)
    ensures
        r@ == low_bytes(v as nat, 16),
{
    low_bytes_of(v, 16)
}

fn low_bytes_of(v: u128, n: usize) -> (r: Vec<u8>)
    ensures
        r@ == low_bytes(v as nat, n as nat),
    decreases n,
{
    if n == 0 {
        Vec::new()
    } else {
        let mut head = low_bytes_of(v / 256, n - 1);
        head.push((v % 256) as u8);
        head
    }
}

proof fn low_bytes_len(v: nat, n: nat)
    ensures
        low_bytes(v, n).len() == n,
    decreases n,
{
    if n > 0 {
        low_bytes_len(v / 256, (n - 1) as nat);
    }
}

/// The hexadecimal of one stretch of `bytes`.
fn hex_range(bytes: &Vec<u8>, from: usize, to: usize) -> (r: String)
    requires
        from <= to <= bytes@.len(),
    ensures
        r@ == text::hex_of(bytes@.subrange(from as int, to as int)),
{
    text::hex(vstd::slice::slice_subrange(bytes.as_slice(), from, to))
}

/// Sixteen bytes in the hyphenated lowercase form of an identifier.
pub fn hyphenated_text(b: &Vec<u8>) -> (r: String)
    requires
        b@.len() == 16,
    ensures
        r@ == hyphenated(b@),
{
    hex_range(b, 0, 4).concat("-").concat(hex_range(b, 4, 6).as_str()).concat("-").concat(
        hex_range(b, 6, 8).as_str(),
    ).concat("-").concat(hex_range(b, 8, 10).as_str()).concat("-").concat(
        hex_range(b, 10, 16).as_str(),
    )
}

/// The hyphenated lowercase form of a 128-bit identifier.
pub fn uuid_text(v: u128) -> (r: String)
    ensures
        r@ == uuid_of(v),
{
    proof {
        low_bytes_len(v as nat, 16);
    }
    hyphenated_text(&id_bytes(v))
}

// ---------------------------------------------------------------------------
// Minting
// ---------------------------------------------------------------------------

/// Whether sixteen bytes are a random identifier: version four, of the
/// standard variant.
pub open spec fn randomly_minted(b: Seq<u8>) -> bool {
    b.len() == 16 && b[6] / 16 == 4 && b[8] / 64 == 2
}

/// `uuid::Uuid::new_v4`, as its bytes.
///
/// Claimed: sixteen bytes that carry the version and the variant of a random
/// identifier. The rest is chance. It panics only where the system has no
/// randomness to give.
#[verifier::external_body]
pub(crate) fn random_identifier() -> (r: Vec<u8>)
    ensures
        randomly_minted(r@),
{
    uuid::Uuid::new_v4().into_bytes().to_vec()
}

/// Mint the identifier of a raft history. It is never derived from
/// configuration: a cluster that is formed anew keeps its name and gets a new
/// history.
pub fn mint_history() -> (r: Vec<u8>)
    ensures
        randomly_minted(r@),
{
    random_identifier()
}

impl MachineId {
    /// `machine-` and the hyphenated identifier.
    pub open spec fn label(self) -> Seq<char> {
        "machine-"@ + uuid_of(self.id)
    }

    /// `machine-` and the hyphenated identifier.
    pub fn text(self) -> (r: String)
        ensures
            r@ == self.label(),
    {
        "machine-".to_owned().concat(uuid_text(self.id).as_str())
    }
}

impl NodeId {
    /// `node-` and the hyphenated identifier.
    pub open spec fn label(self) -> Seq<char> {
        "node-"@ + uuid_of(self.id)
    }

    /// `node-` and the hyphenated identifier.
    pub fn text(self) -> (r: String)
        ensures
            r@ == self.label(),
    {
        "node-".to_owned().concat(uuid_text(self.id).as_str())
    }
}

/// One member of the raft membership.
#[derive(Debug, Clone)]
pub struct MemberSummary {
    pub id: u64,
    pub addr: String,
    pub voter: bool,
}

/// Raft's own view of its membership on one replica.
#[derive(Debug, Clone)]
pub struct ClusterSummary {
    pub local_id: u64,
    pub leader: Option<u64>,
    pub term: u64,
    pub last_applied: u64,
    pub known_committed: u64,
    pub snapshot_last_index: Option<u64>,
    pub members: Vec<MemberSummary>,
    pub replication: Vec<(u64, u64)>,
    pub millis_since_quorum_ack: Option<u64>,
}

impl ClusterSummary {
    /// Whether the replica that produced this summary leads.
    pub open spec fn leads(self) -> bool {
        self.leader == Some(self.local_id)
    }

    /// Whether the replica that produced this summary leads.
    pub fn is_leader(&self) -> (r: bool)
        ensures
            r == self.leads(),
    {
        match self.leader {
            Some(id) => id == self.local_id,
            None => false,
        }
    }

    /// The position of the first member with this id, or the member count.
    pub open spec fn seat_of(self, node: u64) -> int {
        first_seat(self.members@, node)
    }

    /// Whether some member carries this id.
    pub open spec fn seats(self, node: u64) -> bool {
        self.seat_of(node) < self.members@.len()
    }

    /// The position of the first member with this id.
    pub fn find(&self, node: u64) -> (r: Option<usize>)
        ensures
            r is Some <==> self.seats(node),
            r matches Some(i) ==> i == self.seat_of(node) && i < self.members@.len()
                && self.members@[i as int].id == node,
    {
        let mut i: usize = 0;
        let n: usize = self.members.len();
        assert(self.members@.subrange(0, n as int) == self.members@);
        while i < n
            invariant
                n == self.members@.len(),
                i <= n,
                self.seat_of(node) == i + first_seat(
                    self.members@.subrange(i as int, n as int),
                    node,
                ),
            decreases n - i,
        {
            let ghost rest = self.members@.subrange(i as int, n as int);
            assert(rest.subrange(1, rest.len() as int) == self.members@.subrange(i + 1, n as int));
            if self.members[i].id == node {
                return Some(i);
            }
            i = i + 1;
        }
        None
    }
}

/// The position of the first member with this id, or the member count.
pub open spec fn first_seat(members: Seq<MemberSummary>, node: u64) -> int
    decreases members.len(),
{
    if members.len() == 0 || members[0].id == node {
        0
    } else {
        1 + first_seat(members.subrange(1, members.len() as int), node)
    }
}

proof fn first_seat_is_first(members: Seq<MemberSummary>, node: u64)
    ensures
        0 <= first_seat(members, node) <= members.len(),
        first_seat(members, node) < members.len() ==> members[first_seat(members, node)].id == node,
        forall|j: int| 0 <= j < first_seat(members, node) ==> (#[trigger] members[j]).id != node,
    decreases members.len(),
{
    if members.len() > 0 && members[0].id != node {
        let rest = members.subrange(1, members.len() as int);
        first_seat_is_first(rest, node);
        assert forall|j: int| 0 <= j < first_seat(members, node) implies (#[trigger] members[j]).id
            != node by {
            if j > 0 {
                assert(rest[j - 1] == members[j]);
            }
        }
    }
}

/// A member is found by its id and by nothing else: the first that carries it,
/// voter or learner, and none only where no member does.
pub proof fn a_member_is_found_by_its_id(summary: ClusterSummary, node: u64, r: Option<usize>)
    requires
        call_ensures(ClusterSummary::find, (&summary, node), r),
    ensures
        r is None <==> forall|i: int|
            0 <= i < summary.members@.len() ==> (#[trigger] summary.members@[i]).id != node,
        r matches Some(at) ==> {
            &&& at < summary.members@.len()
            &&& summary.members@[at as int].id == node
            &&& forall|j: int| 0 <= j < at ==> (#[trigger] summary.members@[j]).id != node
        },
{
    first_seat_is_first(summary.members@, node);
}

/// Who is seated is decided by the members' ids alone.
pub proof fn a_seat_is_a_members_id(summary: ClusterSummary, node: u64)
    ensures
        summary.seats(node) <==> exists|i: int|
            0 <= i < summary.members@.len() && (#[trigger] summary.members@[i]).id == node,
        summary.seats(node) ==> 0 <= summary.seat_of(node) < summary.members@.len()
            && summary.members@[summary.seat_of(node)].id == node,
        forall|j: int|
            0 <= j < summary.seat_of(node) && j < summary.members@.len() ==> (
            #[trigger] summary.members@[j]).id != node,
{
    first_seat_is_first(summary.members@, node);
    if summary.seats(node) {
        assert(summary.members@[summary.seat_of(node)].id == node);
    }
}

/// A replica leads exactly when the leader it knows is itself.
pub proof fn a_replica_leads_when_it_is_the_leader(summary: ClusterSummary, r: bool)
    requires
        call_ensures(ClusterSummary::is_leader, (&summary,), r),
    ensures
        r <==> summary.leader is Some && summary.leader->0 == summary.local_id,
        r == summary.leads(),
{
}

/// The role a replica currently believes it holds.
#[derive(Debug, Clone, Copy, PartialEq, Eq, Structural)]
pub enum Role {
    Leader { term: u64 },
    Follower { leader: Option<u64> },
    Unknown,
}

/// Why the consensus seam did not do what was asked.
#[derive(Debug, Clone)]
pub enum ConsensusError {
    NotLeader { leader: Option<u64> },
    LearnerNotCaughtUp { lag: u64 },
    UnknownNode { node: u64 },
    AddressConflict { node: u64, current: String, requested: String },
    VoterSetFull { node: u64, voters: usize, cluster_size: usize },
    NoRemovablePeer { node: u64, voters: usize, cluster_size: usize },
    NoKeyHolder,
    QuorumAtRisk { live: usize, continuing: usize },
    OldNotVoter { node: u64 },
    NewAlreadyVoter { node: u64 },
    MembershipInProgress,
    Timeout,
    Shutdown,
    Fatal(String),
}

/// An identifier is written as thirty-six characters, hyphens after the
/// eighth, twelfth, sixteenth and twentieth digit.
pub proof fn an_identifier_is_hyphenated(b: Vec<u8>, r: String)
    requires
        call_ensures(hyphenated_text, (&b,), r),
        b@.len() == 16,
    ensures
        r@.len() == 36,
        r@[8] == '-' && r@[13] == '-' && r@[18] == '-' && r@[23] == '-',
        r@.subrange(0, 8) == text::hex_of(b@.subrange(0, 4)),
        r@.subrange(24, 36) == text::hex_of(b@.subrange(10, 16)),
{
    reveal_strlit("-");
    text::hex_spells_each_byte(b@.subrange(0, 4), 0);
    text::hex_spells_each_byte(b@.subrange(4, 6), 0);
    text::hex_spells_each_byte(b@.subrange(6, 8), 0);
    text::hex_spells_each_byte(b@.subrange(8, 10), 0);
    text::hex_spells_each_byte(b@.subrange(10, 16), 0);
    assert(r@.subrange(0, 8) =~= text::hex_of(b@.subrange(0, 4)));
    assert(r@.subrange(24, 36) =~= text::hex_of(b@.subrange(10, 16)));
}

/// The bytes of an identifier are its own, the least significant last.
pub proof fn the_last_byte_is_the_least(v: u128, r: Vec<u8>)
    requires
        call_ensures(id_bytes, (v,), r),
    ensures
        r@.len() == 16,
        r@[15] == v % 256,
        r@[14] == (v / 256) % 256,
        r@[13] == (v / 256 / 256) % 256,
{
    reveal_with_fuel(low_bytes, 4);
    low_bytes_len(v as nat, 16);
    low_bytes_len((v / 256) as nat, 15);
    low_bytes_len((v / 256 / 256) as nat, 14);
    low_bytes_len((v / 256 / 256 / 256) as nat, 13);
}

/// A machine and a node are written under their own names.
pub proof fn identities_are_labelled(m: MachineId, n: NodeId, a: String, b: String)
    requires
        call_ensures(MachineId::text, (m,), a),
        call_ensures(NodeId::text, (n,), b),
    ensures
        a@ == "machine-"@ + uuid_of(m.id),
        b@ == "node-"@ + uuid_of(n.id),
{
}

/// A minted history is sixteen bytes of a random identifier, version four.
pub proof fn a_history_is_random(r: Vec<u8>)
    requires
        call_ensures(mint_history, (), r),
    ensures
        r@.len() == 16,
        0x40 <= r@[6] <= 0x4f,
        0x80 <= r@[8] <= 0xbf,
{
}

} // verus!
