//! How `admin status` prints a cluster: a table for people, a document for
//! scripts.

use vstd::prelude::*;
use vstd::string::*;

use crate::json;
use crate::json::{json_held, Doc};
use crate::text;
use crate::text::{decimal_text, pad_right};
use crate::wire::{
    ClusterStatusResponse, KeyHolder, MachineBinding, PendingKeyTransfer, RaftMember,
    ReplicationProgress,
};

verus! {

// ---------------------------------------------------------------------------
// What is joined
// ---------------------------------------------------------------------------

/// The voters of the first configuration, none without one.
pub open spec fn voters_of(s: ClusterStatusResponse) -> Seq<u64> {
    match s.membership {
        Some(m) => if m.configs@.len() > 0 {
            m.configs@[0].voters@
        } else {
            seq![]
        },
        None => seq![],
    }
}

/// The members, none without a membership.
pub open spec fn members_of(s: ClusterStatusResponse) -> Seq<RaftMember> {
    match s.membership {
        Some(m) => m.members@,
        None => seq![],
    }
}

/// Whether some member carries this identifier.
pub open spec fn seated(members: Seq<RaftMember>, node: u64) -> bool {
    exists|i: int| 0 <= i < members.len() && (#[trigger] members[i]).node_id == node
}

/// A member's role.
pub open spec fn member_role(voters: Seq<u64>, node: u64) -> Seq<char> {
    if voters.contains(node) {
        "voter"@
    } else {
        "learner"@
    }
}

/// A key holder's role: one that is no longer a member departed, and is still
/// listed.
pub open spec fn holder_role(voters: Seq<u64>, members: Seq<RaftMember>, node: u64) -> Seq<char> {
    if voters.contains(node) {
        "voter"@
    } else if seated(members, node) {
        "learner"@
    } else {
        "departed"@
    }
}

/// How far a follower trails.
pub open spec fn lag_of(applied: u64, matched: u64) -> nat {
    if matched >= applied {
        0
    } else {
        (applied - matched) as nat
    }
}

/// The machine bound to a node: the last binding that names it.
pub open spec fn machine_of(bindings: Seq<MachineBinding>, node: u64) -> Option<Seq<char>>
    decreases bindings.len(),
{
    if bindings.len() == 0 {
        None
    } else if bindings.last().node_id == node {
        Some(bindings.last().machine_id@)
    } else {
        machine_of(bindings.drop_last(), node)
    }
}

/// The members as read.
fn members_in(s: &ClusterStatusResponse) -> (r: Option<&Vec<RaftMember>>)
    ensures
        match r {
            Some(m) => m@ == members_of(*s),
            None => members_of(*s) == Seq::<RaftMember>::empty(),
        },
{
    match &s.membership {
        Some(m) => Some(&m.members),
        None => None,
    }
}

fn is_voter(s: &ClusterStatusResponse, node: u64) -> (r: bool)
    ensures
        r == voters_of(*s).contains(node),
{
    match &s.membership {
        Some(m) => {
            if m.configs.len() == 0 {
                return false;
            }
            let voters = &m.configs[0].voters;
            let mut i: usize = 0;
            while i < voters.len()
                invariant
                    i <= voters@.len(),
                    voters@ == voters_of(*s),
                    forall|j: int| 0 <= j < i ==> voters@[j] != node,
                decreases voters@.len() - i,
            {
                if voters[i] == node {
                    return true;
                }
                i = i + 1;
            }
            false
        },
        None => false,
    }
}

fn is_seated(s: &ClusterStatusResponse, node: u64) -> (r: bool)
    ensures
        r == seated(members_of(*s), node),
{
    match members_in(s) {
        Some(members) => {
            let mut i: usize = 0;
            while i < members.len()
                invariant
                    i <= members@.len(),
                    members@ == members_of(*s),
                    forall|j: int| 0 <= j < i ==> (#[trigger] members@[j]).node_id != node,
                decreases members@.len() - i,
            {
                if members[i].node_id == node {
                    return true;
                }
                i = i + 1;
            }
            false
        },
        None => false,
    }
}

fn role_of_member(s: &ClusterStatusResponse, node: u64) -> (r: &'static str)
    ensures
        r@ == member_role(voters_of(*s), node),
{
    if is_voter(s, node) {
        "voter"
    } else {
        "learner"
    }
}

fn role_of_holder(s: &ClusterStatusResponse, node: u64) -> (r: &'static str)
    ensures
        r@ == holder_role(voters_of(*s), members_of(*s), node),
{
    if is_voter(s, node) {
        "voter"
    } else if is_seated(s, node) {
        "learner"
    } else {
        "departed"
    }
}

fn lag(applied: u64, matched: u64) -> (r: u64)
    ensures
        r == lag_of(applied, matched),
{
    if matched >= applied {
        0
    } else {
        applied - matched
    }
}

fn find_machine(bindings: &Vec<MachineBinding>, node: u64) -> (r: Option<&str>)
    ensures
        match r {
            Some(m) => machine_of(bindings@, node) == Some(m@),
            None => machine_of(bindings@, node) is None,
        },
{
    let n: usize = bindings.len();
    let mut i: usize = n;
    assert(bindings@.subrange(0, n as int) =~= bindings@);
    while i > 0
        invariant
            n == bindings@.len(),
            i <= n,
            machine_of(bindings@, node) == machine_of(bindings@.subrange(0, i as int), node),
        decreases i,
    {
        assert(bindings@.subrange(0, i as int).drop_last() =~= bindings@.subrange(0, i - 1));
        if bindings[i - 1].node_id == node {
            return Some(bindings[i - 1].machine_id.as_str());
        }
        i = i - 1;
    }
    None
}

// ---------------------------------------------------------------------------
// The table
// ---------------------------------------------------------------------------

/// The leader, as the table names it.
pub open spec fn leader_text(s: ClusterStatusResponse) -> Seq<char> {
    match s.leader_node_id {
        Some(id) => if id == s.local_node_id {
            text::decimal(id as nat) + " (this node)"@
        } else {
            text::decimal(id as nat)
        },
        None => "unknown"@,
    }
}

/// A node's number in its column.
pub open spec fn node_column(node: u64) -> Seq<char> {
    "  node "@ + text::padded(text::decimal(node as nat), 6) + " "@
}

pub open spec fn member_lines(members: Seq<RaftMember>, voters: Seq<u64>) -> Seq<char>
    decreases members.len(),
{
    if members.len() == 0 {
        ""@
    } else {
        let m = members.last();
        member_lines(members.drop_last(), voters) + node_column(m.node_id) + text::padded(
            member_role(voters, m.node_id),
            8,
        ) + " "@ + m.address@ + "\n"@
    }
}

pub open spec fn holder_lines(
    holders: Seq<KeyHolder>,
    voters: Seq<u64>,
    members: Seq<RaftMember>,
) -> Seq<char>
    decreases holders.len(),
{
    if holders.len() == 0 {
        ""@
    } else {
        let h = holders.last();
        holder_lines(holders.drop_last(), voters, members) + node_column(h.node_id) + holder_role(
            voters,
            members,
            h.node_id,
        ) + "\n"@
    }
}

pub open spec fn pending_lines(pending: Seq<PendingKeyTransfer>) -> Seq<char>
    decreases pending.len(),
{
    if pending.len() == 0 {
        ""@
    } else {
        pending_lines(pending.drop_last()) + node_column(pending.last().node_id)
            + "possibly keyed\n"@
    }
}

pub open spec fn replication_lines(rows: Seq<ReplicationProgress>, applied: u64) -> Seq<char>
    decreases rows.len(),
{
    if rows.len() == 0 {
        ""@
    } else {
        let row = rows.last();
        replication_lines(rows.drop_last(), applied) + node_column(row.node_id) + "matched "@
            + text::padded(text::decimal(row.matched_index as nat), 12) + " lag "@ + text::decimal(
            lag_of(applied, row.matched_index),
        ) + "\n"@
    }
}

/// A titled list, left out when it is empty.
pub open spec fn section(title: Seq<char>, len: nat, lines: Seq<char>) -> Seq<char> {
    if len == 0 {
        ""@
    } else {
        title + lines
    }
}

/// The heading of the table.
pub open spec fn heading(s: ClusterStatusResponse) -> Seq<char> {
    "node          "@ + text::decimal(s.local_node_id as nat) + "\nleader        "@ + leader_text(s)
        + "\nterm          "@ + text::decimal(s.term as nat) + "\napplied       "@ + text::decimal(
        s.last_applied_index as nat,
    ) + "\ncommitted     "@ + text::decimal(s.known_committed_index as nat) + "\nmembers:\n"@
}

/// The table.
pub open spec fn table(s: ClusterStatusResponse) -> Seq<char> {
    let voters = voters_of(s);
    let members = members_of(s);
    heading(s) + member_lines(members, voters) + section(
        "key holders (ADR 0037 §4):\n"@,
        s.key_holders@.len(),
        holder_lines(s.key_holders@, voters, members),
    ) + section(
        "pending key transfers (unresolved intents, ADR 0037 §4):\n"@,
        s.pending_key_transfers@.len(),
        pending_lines(s.pending_key_transfers@),
    ) + section(
        "replication (leader view):\n"@,
        s.replication@.len(),
        replication_lines(s.replication@, s.last_applied_index),
    )
}

fn column(node: u64) -> (r: String)
    ensures
        r@ == node_column(node),
{
    "  node ".to_owned().concat(pad_right(decimal_text(node), 6).as_str()).concat(" ")
}

fn write_members(s: &ClusterStatusResponse) -> (r: String)
    ensures
        r@ == member_lines(members_of(*s), voters_of(*s)),
{
    let mut out = "".to_owned();
    match members_in(s) {
        None => out,
        Some(members) => {
            let mut i: usize = 0;
            while i < members.len()
                invariant
                    i <= members@.len(),
                    out@ == member_lines(members@.subrange(0, i as int), voters_of(*s)),
                decreases members@.len() - i,
            {
                assert(members@.subrange(0, i + 1).drop_last() =~= members@.subrange(
                    0,
                    i as int,
                ));
                let m = &members[i];
                let role = pad_right(role_of_member(s, m.node_id).to_owned(), 8);
                out = out.concat(column(m.node_id).as_str()).concat(role.as_str()).concat(
                    " ",
                ).concat(m.address.as_str()).concat("\n");
                i = i + 1;
            }
            assert(members@.subrange(0, members@.len() as int) =~= members@);
            out
        },
    }
}

fn write_holders(s: &ClusterStatusResponse) -> (r: String)
    ensures
        r@ == holder_lines(s.key_holders@, voters_of(*s), members_of(*s)),
{
    let mut out = "".to_owned();
    let mut i: usize = 0;
    while i < s.key_holders.len()
        invariant
            i <= s.key_holders@.len(),
            out@ == holder_lines(
                s.key_holders@.subrange(0, i as int),
                voters_of(*s),
                members_of(*s),
            ),
        decreases s.key_holders@.len() - i,
    {
        assert(s.key_holders@.subrange(0, i + 1).drop_last() =~= s.key_holders@.subrange(
            0,
            i as int,
        ));
        let node = s.key_holders[i].node_id;
        out = out.concat(column(node).as_str()).concat(role_of_holder(s, node)).concat("\n");
        i = i + 1;
    }
    assert(s.key_holders@.subrange(0, s.key_holders@.len() as int) =~= s.key_holders@);
    out
}

fn write_pending(s: &ClusterStatusResponse) -> (r: String)
    ensures
        r@ == pending_lines(s.pending_key_transfers@),
{
    let mut out = "".to_owned();
    let mut i: usize = 0;
    while i < s.pending_key_transfers.len()
        invariant
            i <= s.pending_key_transfers@.len(),
            out@ == pending_lines(s.pending_key_transfers@.subrange(0, i as int)),
        decreases s.pending_key_transfers@.len() - i,
    {
        assert(s.pending_key_transfers@.subrange(0, i + 1).drop_last()
            =~= s.pending_key_transfers@.subrange(0, i as int));
        out = out.concat(column(s.pending_key_transfers[i].node_id).as_str()).concat(
            "possibly keyed\n",
        );
        i = i + 1;
    }
    assert(s.pending_key_transfers@.subrange(0, s.pending_key_transfers@.len() as int)
        =~= s.pending_key_transfers@);
    out
}

fn write_replication(s: &ClusterStatusResponse) -> (r: String)
    ensures
        r@ == replication_lines(s.replication@, s.last_applied_index),
{
    let mut out = "".to_owned();
    let mut i: usize = 0;
    while i < s.replication.len()
        invariant
            i <= s.replication@.len(),
            out@ == replication_lines(
                s.replication@.subrange(0, i as int),
                s.last_applied_index,
            ),
        decreases s.replication@.len() - i,
    {
        assert(s.replication@.subrange(0, i + 1).drop_last() =~= s.replication@.subrange(
            0,
            i as int,
        ));
        let row = s.replication[i];
        out = out.concat(column(row.node_id).as_str()).concat("matched ").concat(
            pad_right(decimal_text(row.matched_index), 12).as_str(),
        ).concat(" lag ").concat(
            decimal_text(lag(s.last_applied_index, row.matched_index)).as_str(),
        ).concat("\n");
        i = i + 1;
    }
    assert(s.replication@.subrange(0, s.replication@.len() as int) =~= s.replication@);
    out
}

/// The table `admin status` prints.
pub fn render_status(s: &ClusterStatusResponse) -> (r: String)
    ensures
        r@ == table(*s),
{
    let leader = match s.leader_node_id {
        Some(id) => {
            if id == s.local_node_id {
                decimal_text(id).concat(" (this node)")
            } else {
                decimal_text(id)
            }
        },
        None => "unknown".to_owned(),
    };
    let head = "node          ".to_owned().concat(decimal_text(s.local_node_id).as_str()).concat(
        "\nleader        ",
    ).concat(leader.as_str()).concat("\nterm          ").concat(
        decimal_text(s.term).as_str(),
    ).concat("\napplied       ").concat(decimal_text(s.last_applied_index).as_str()).concat(
        "\ncommitted     ",
    ).concat(decimal_text(s.known_committed_index).as_str()).concat("\nmembers:\n");
    let holders = if s.key_holders.len() == 0 {
        "".to_owned()
    } else {
        "key holders (ADR 0037 §4):\n".to_owned().concat(write_holders(s).as_str())
    };
    let pending = if s.pending_key_transfers.len() == 0 {
        "".to_owned()
    } else {
        "pending key transfers (unresolved intents, ADR 0037 §4):\n".to_owned().concat(
            write_pending(s).as_str(),
        )
    };
    let replication = if s.replication.len() == 0 {
        "".to_owned()
    } else {
        "replication (leader view):\n".to_owned().concat(write_replication(s).as_str())
    };
    head.concat(write_members(s).as_str()).concat(holders.as_str()).concat(
        pending.as_str(),
    ).concat(replication.as_str())
}

// ---------------------------------------------------------------------------
// The document
// ---------------------------------------------------------------------------

pub open spec fn member_doc(
    m: RaftMember,
    voters: Seq<u64>,
    bindings: Seq<MachineBinding>,
) -> Doc {
    json::object_of(
        seq![
            ("node_id"@, Doc::Number(m.node_id as int)),
            ("addr"@, Doc::Text(m.address@)),
            ("role"@, Doc::Text(member_role(voters, m.node_id))),
            ("machine_id"@, json::opt_text(machine_of(bindings, m.node_id))),
        ],
    )
}

pub open spec fn replication_doc(row: ReplicationProgress, applied: u64) -> Doc {
    json::object_of(
        seq![
            ("node_id"@, Doc::Number(row.node_id as int)),
            ("matched_index"@, Doc::Number(row.matched_index as int)),
            ("lag"@, Doc::Number(lag_of(applied, row.matched_index) as int)),
        ],
    )
}

pub open spec fn binding_doc(b: MachineBinding) -> Doc {
    json::object_of(
        seq![
            ("machine_id"@, Doc::Text(b.machine_id@)),
            ("node_id"@, Doc::Number(b.node_id as int)),
            ("address"@, Doc::Text(b.address@)),
            ("bound_at_us"@, Doc::Number(b.bound_at_us as int)),
        ],
    )
}

pub open spec fn holder_doc(h: KeyHolder, voters: Seq<u64>, members: Seq<RaftMember>) -> Doc {
    json::object_of(
        seq![
            ("node_id"@, Doc::Number(h.node_id as int)),
            ("confirmed_at_us"@, Doc::Number(h.confirmed_at_us as int)),
            ("role"@, Doc::Text(holder_role(voters, members, h.node_id))),
        ],
    )
}

pub open spec fn pending_doc(p: PendingKeyTransfer) -> Doc {
    json::object_of(
        seq![
            ("node_id"@, Doc::Number(p.node_id as int)),
            ("intended_at_us"@, Doc::Number(p.intended_at_us as int)),
        ],
    )
}

/// The health: both keys always, null when the responder could not answer.
pub open spec fn health_doc(s: ClusterStatusResponse) -> Doc {
    let healthy = match s.health {
        Some(h) => Some(h.healthy),
        None => None,
    };
    let live = match s.health {
        Some(h) => Some(h.live_voters),
        None => None,
    };
    json::object_of(
        seq![("healthy"@, json::opt_bool(healthy)), ("live_voters"@, json::opt_number(live))],
    )
}

/// The document. Names, nesting and types are a contract with scripts; an
/// absent value is null and never a missing key.
pub open spec fn status_doc(s: ClusterStatusResponse) -> Doc {
    let voters = voters_of(s);
    let members = members_of(s);
    json::object_of(
        seq![
            ("node_id"@, Doc::Number(s.local_node_id as int)),
            ("leader"@, json::opt_number(s.leader_node_id)),
            ("is_leader"@, Doc::Bool(s.leader_node_id == Some(s.local_node_id))),
            ("term"@, Doc::Number(s.term as int)),
            ("applied_index"@, Doc::Number(s.last_applied_index as int)),
            ("committed_index"@, Doc::Number(s.known_committed_index as int)),
            (
                "members"@,
                Doc::List(
                    members.map_values(|m: RaftMember| member_doc(m, voters, s.bindings@)),
                ),
            ),
            (
                "replication"@,
                Doc::List(
                    s.replication@.map_values(
                        |row: ReplicationProgress| replication_doc(row, s.last_applied_index),
                    ),
                ),
            ),
            ("bindings"@, Doc::List(s.bindings@.map_values(|b: MachineBinding| binding_doc(b)))),
            (
                "key_holders"@,
                Doc::List(s.key_holders@.map_values(|h: KeyHolder| holder_doc(h, voters, members))),
            ),
            (
                "pending_key_transfers"@,
                Doc::List(
                    s.pending_key_transfers@.map_values(|p: PendingKeyTransfer| pending_doc(p)),
                ),
            ),
            ("health"@, health_doc(s)),
        ],
    )
}

fn member_value(s: &ClusterStatusResponse, m: &RaftMember) -> (r: serde_json::Value)
    ensures
        json_held(r) == member_doc(*m, voters_of(*s), s.bindings@),
{
    let machine = match find_machine(&s.bindings, m.node_id) {
        Some(id) => json::text(id),
        None => json::null(),
    };
    let mut fields: Vec<(String, serde_json::Value)> = Vec::new();
    fields.push(json::field("node_id", json::unsigned(m.node_id)));
    fields.push(json::field("addr", json::text(m.address.as_str())));
    fields.push(json::field("role", json::text(role_of_member(s, m.node_id))));
    fields.push(json::field("machine_id", machine));
    assert(json::held_fields(fields@) =~= seq![
        ("node_id"@, Doc::Number(m.node_id as int)),
        ("addr"@, Doc::Text(m.address@)),
        ("role"@, Doc::Text(member_role(voters_of(*s), m.node_id))),
        ("machine_id"@, json::opt_text(machine_of(s.bindings@, m.node_id))),
    ]);
    json::object(fields)
}

fn members_value(s: &ClusterStatusResponse) -> (r: serde_json::Value)
    ensures
        json_held(r) == Doc::List(
            members_of(*s).map_values(|m: RaftMember| member_doc(m, voters_of(*s), s.bindings@)),
        ),
{
    let ghost docs = members_of(*s).map_values(
        |m: RaftMember| member_doc(m, voters_of(*s), s.bindings@),
    );
    let mut items: Vec<serde_json::Value> = Vec::new();
    if let Some(members) = members_in(s) {
        let mut i: usize = 0;
        while i < members.len()
            invariant
                i <= members@.len(),
                members@ == members_of(*s),
                docs == members_of(*s).map_values(
                    |m: RaftMember| member_doc(m, voters_of(*s), s.bindings@),
                ),
                json::held_all(items@) =~= docs.subrange(0, i as int),
            decreases members@.len() - i,
        {
            let v = member_value(s, &members[i]);
            assert(docs[i as int] == json_held(v));
            assert(json::held_all(items@.push(v)) =~= json::held_all(items@).push(json_held(v)));
            items.push(v);
            i = i + 1;
        }
    }
    assert(json::held_all(items@) =~= docs);
    json::list(items)
}

fn replication_value(s: &ClusterStatusResponse) -> (r: serde_json::Value)
    ensures
        json_held(r) == Doc::List(
            s.replication@.map_values(
                |row: ReplicationProgress| replication_doc(row, s.last_applied_index),
            ),
        ),
{
    let ghost docs = s.replication@.map_values(
        |row: ReplicationProgress| replication_doc(row, s.last_applied_index),
    );
    let mut items: Vec<serde_json::Value> = Vec::new();
    let mut i: usize = 0;
    while i < s.replication.len()
        invariant
            i <= s.replication@.len(),
            docs == s.replication@.map_values(
                |row: ReplicationProgress| replication_doc(row, s.last_applied_index),
            ),
            json::held_all(items@) =~= docs.subrange(0, i as int),
        decreases s.replication@.len() - i,
    {
        let row = s.replication[i];
        let behind = lag(s.last_applied_index, row.matched_index);
        let mut fields: Vec<(String, serde_json::Value)> = Vec::new();
        fields.push(json::field("node_id", json::unsigned(row.node_id)));
        fields.push(json::field("matched_index", json::unsigned(row.matched_index)));
        fields.push(json::field("lag", json::unsigned(behind)));
        assert(json::held_fields(fields@) =~= seq![
            ("node_id"@, Doc::Number(row.node_id as int)),
            ("matched_index"@, Doc::Number(row.matched_index as int)),
            ("lag"@, Doc::Number(lag_of(s.last_applied_index, row.matched_index) as int)),
        ]);
        let v = json::object(fields);
        assert(docs[i as int] == json_held(v));
        assert(json::held_all(items@.push(v)) =~= json::held_all(items@).push(json_held(v)));
        items.push(v);
        i = i + 1;
    }
    assert(json::held_all(items@) =~= docs);
    json::list(items)
}

fn bindings_value(bindings: &Vec<MachineBinding>) -> (r: serde_json::Value)
    ensures
        json_held(r) == Doc::List(bindings@.map_values(|b: MachineBinding| binding_doc(b))),
{
    let ghost docs = bindings@.map_values(|b: MachineBinding| binding_doc(b));
    let mut items: Vec<serde_json::Value> = Vec::new();
    let mut i: usize = 0;
    while i < bindings.len()
        invariant
            i <= bindings@.len(),
            docs == bindings@.map_values(|b: MachineBinding| binding_doc(b)),
            json::held_all(items@) =~= docs.subrange(0, i as int),
        decreases bindings@.len() - i,
    {
        let b = &bindings[i];
        let mut fields: Vec<(String, serde_json::Value)> = Vec::new();
        fields.push(json::field("machine_id", json::text(b.machine_id.as_str())));
        fields.push(json::field("node_id", json::unsigned(b.node_id)));
        fields.push(json::field("address", json::text(b.address.as_str())));
        fields.push(json::field("bound_at_us", json::signed(b.bound_at_us)));
        assert(json::held_fields(fields@) =~= seq![
            ("machine_id"@, Doc::Text(b.machine_id@)),
            ("node_id"@, Doc::Number(b.node_id as int)),
            ("address"@, Doc::Text(b.address@)),
            ("bound_at_us"@, Doc::Number(b.bound_at_us as int)),
        ]);
        let v = json::object(fields);
        assert(docs[i as int] == json_held(v));
        assert(json::held_all(items@.push(v)) =~= json::held_all(items@).push(json_held(v)));
        items.push(v);
        i = i + 1;
    }
    assert(json::held_all(items@) =~= docs);
    json::list(items)
}

fn holders_value(s: &ClusterStatusResponse) -> (r: serde_json::Value)
    ensures
        json_held(r) == Doc::List(
            s.key_holders@.map_values(
                |h: KeyHolder| holder_doc(h, voters_of(*s), members_of(*s)),
            ),
        ),
{
    let ghost docs = s.key_holders@.map_values(
        |h: KeyHolder| holder_doc(h, voters_of(*s), members_of(*s)),
    );
    let mut items: Vec<serde_json::Value> = Vec::new();
    let mut i: usize = 0;
    while i < s.key_holders.len()
        invariant
            i <= s.key_holders@.len(),
            docs == s.key_holders@.map_values(
                |h: KeyHolder| holder_doc(h, voters_of(*s), members_of(*s)),
            ),
            json::held_all(items@) =~= docs.subrange(0, i as int),
        decreases s.key_holders@.len() - i,
    {
        let h = s.key_holders[i];
        let mut fields: Vec<(String, serde_json::Value)> = Vec::new();
        fields.push(json::field("node_id", json::unsigned(h.node_id)));
        fields.push(json::field("confirmed_at_us", json::signed(h.confirmed_at_us)));
        fields.push(json::field("role", json::text(role_of_holder(s, h.node_id))));
        assert(json::held_fields(fields@) =~= seq![
            ("node_id"@, Doc::Number(h.node_id as int)),
            ("confirmed_at_us"@, Doc::Number(h.confirmed_at_us as int)),
            ("role"@, Doc::Text(holder_role(voters_of(*s), members_of(*s), h.node_id))),
        ]);
        let v = json::object(fields);
        assert(docs[i as int] == json_held(v));
        assert(json::held_all(items@.push(v)) =~= json::held_all(items@).push(json_held(v)));
        items.push(v);
        i = i + 1;
    }
    assert(json::held_all(items@) =~= docs);
    json::list(items)
}

fn pending_value(pending: &Vec<PendingKeyTransfer>) -> (r: serde_json::Value)
    ensures
        json_held(r) == Doc::List(pending@.map_values(|p: PendingKeyTransfer| pending_doc(p))),
{
    let ghost docs = pending@.map_values(|p: PendingKeyTransfer| pending_doc(p));
    let mut items: Vec<serde_json::Value> = Vec::new();
    let mut i: usize = 0;
    while i < pending.len()
        invariant
            i <= pending@.len(),
            docs == pending@.map_values(|p: PendingKeyTransfer| pending_doc(p)),
            json::held_all(items@) =~= docs.subrange(0, i as int),
        decreases pending@.len() - i,
    {
        let p = pending[i];
        let mut fields: Vec<(String, serde_json::Value)> = Vec::new();
        fields.push(json::field("node_id", json::unsigned(p.node_id)));
        fields.push(json::field("intended_at_us", json::signed(p.intended_at_us)));
        assert(json::held_fields(fields@) =~= seq![
            ("node_id"@, Doc::Number(p.node_id as int)),
            ("intended_at_us"@, Doc::Number(p.intended_at_us as int)),
        ]);
        let v = json::object(fields);
        assert(docs[i as int] == json_held(v));
        assert(json::held_all(items@.push(v)) =~= json::held_all(items@).push(json_held(v)));
        items.push(v);
        i = i + 1;
    }
    assert(json::held_all(items@) =~= docs);
    json::list(items)
}

fn health_value(s: &ClusterStatusResponse) -> (r: serde_json::Value)
    ensures
        json_held(r) == health_doc(*s),
{
    let (healthy, live) = match s.health {
        Some(h) => (Some(h.healthy), Some(h.live_voters)),
        None => (None, None),
    };
    let mut fields: Vec<(String, serde_json::Value)> = Vec::new();
    fields.push(json::field("healthy", json::boolean_or_null(healthy)));
    fields.push(json::field("live_voters", json::unsigned_or_null(live)));
    assert(json::held_fields(fields@) =~= seq![
        ("healthy"@, json::opt_bool(healthy)),
        ("live_voters"@, json::opt_number(live)),
    ]);
    json::object(fields)
}

/// The document `admin status --json` prints.
pub fn status_document(s: &ClusterStatusResponse) -> (r: serde_json::Value)
    ensures
        json_held(r) == status_doc(*s),
{
    let leads = match s.leader_node_id {
        Some(id) => id == s.local_node_id,
        None => false,
    };
    let mut fields: Vec<(String, serde_json::Value)> = Vec::new();
    fields.push(json::field("node_id", json::unsigned(s.local_node_id)));
    fields.push(json::field("leader", json::unsigned_or_null(s.leader_node_id)));
    fields.push(json::field("is_leader", json::boolean(leads)));
    fields.push(json::field("term", json::unsigned(s.term)));
    fields.push(json::field("applied_index", json::unsigned(s.last_applied_index)));
    fields.push(json::field("committed_index", json::unsigned(s.known_committed_index)));
    fields.push(json::field("members", members_value(s)));
    fields.push(json::field("replication", replication_value(s)));
    fields.push(json::field("bindings", bindings_value(&s.bindings)));
    fields.push(json::field("key_holders", holders_value(s)));
    fields.push(
        json::field("pending_key_transfers", pending_value(&s.pending_key_transfers)),
    );
    fields.push(json::field("health", health_value(s)));
    let ghost expected = seq![
        ("node_id"@, Doc::Number(s.local_node_id as int)),
        ("leader"@, json::opt_number(s.leader_node_id)),
        ("is_leader"@, Doc::Bool(leads)),
        ("term"@, Doc::Number(s.term as int)),
        ("applied_index"@, Doc::Number(s.last_applied_index as int)),
        ("committed_index"@, Doc::Number(s.known_committed_index as int)),
        ("members"@, json_held(fields@[6].1)),
        ("replication"@, json_held(fields@[7].1)),
        ("bindings"@, json_held(fields@[8].1)),
        ("key_holders"@, json_held(fields@[9].1)),
        ("pending_key_transfers"@, json_held(fields@[10].1)),
        ("health"@, json_held(fields@[11].1)),
    ];
    assert(json::held_fields(fields@) =~= expected);
    json::object(fields)
}

/// The document `admin status --json` prints, as text.
pub fn render_status_json(s: &ClusterStatusResponse) -> (r: String)
    ensures
        r@ == json::json_pretty(status_doc(*s)),
{
    json::pretty(&status_document(s))
}

/// Unknown health is not health: an answer without a verdict prints null for
/// both of its keys, whatever else it says.
pub proof fn no_verdict_prints_null(s: ClusterStatusResponse)
    requires
        s.health is None,
    ensures
        health_doc(s) == json::object_of(
            seq![("healthy"@, Doc::Null), ("live_voters"@, Doc::Null)],
        ),
{
}

/// Every disk that ever held the key stays listed: a holder that is neither
/// voter nor member reads as departed.
pub proof fn departed_holders_stay_listed(s: ClusterStatusResponse, i: int)
    requires
        0 <= i < s.key_holders@.len(),
        !voters_of(s).contains(s.key_holders@[i].node_id),
        !seated(members_of(s), s.key_holders@[i].node_id),
    ensures
        holder_role(voters_of(s), members_of(s), s.key_holders@[i].node_id) == "departed"@,
{
}

// ---------------------------------------------------------------------------
// What is joined, in words
// ---------------------------------------------------------------------------

/// The three roles: a node that votes is a voter wherever it is listed; one
/// that is seated without a vote is a learner; a holder that is neither has
/// departed.
pub proof fn a_role_is_what_membership_says(s: ClusterStatusResponse, node: u64)
    requires
        s.membership is Some,
        s.membership->0.configs@.len() > 0,
    ensures
        s.membership->0.configs@[0].voters@.contains(node) ==> member_role(voters_of(s), node)
            == "voter"@ && holder_role(voters_of(s), members_of(s), node) == "voter"@,
        !s.membership->0.configs@[0].voters@.contains(node) ==> member_role(voters_of(s), node)
            == "learner"@,
        !s.membership->0.configs@[0].voters@.contains(node) && (exists|i: int|
            0 <= i < s.membership->0.members@.len() && (
            #[trigger] s.membership->0.members@[i]).node_id == node) ==> holder_role(
            voters_of(s),
            members_of(s),
            node,
        ) == "learner"@,
        !s.membership->0.configs@[0].voters@.contains(node) && !(exists|i: int|
            0 <= i < s.membership->0.members@.len() && (
            #[trigger] s.membership->0.members@[i]).node_id == node) ==> holder_role(
            voters_of(s),
            members_of(s),
            node,
        ) == "departed"@,
{
}

/// A follower trails by what it has still to match, and never by less than
/// nothing.
pub proof fn a_lag_is_what_is_missing(applied: u64, matched: u64)
    ensures
        matched <= applied ==> matched + lag_of(applied, matched) == applied,
        matched >= applied ==> lag_of(applied, matched) == 0,
{
}

/// The machine shown beside a node is bound to it, by the last binding that
/// names the node; none is shown exactly where no binding does.
pub proof fn a_members_machine_is_bound_to_it(bindings: Seq<MachineBinding>, node: u64, at: int)
    ensures
        machine_of(bindings, node) is None <==> forall|i: int|
            0 <= i < bindings.len() ==> (#[trigger] bindings[i]).node_id != node,
        0 <= at < bindings.len() && bindings[at].node_id == node && (forall|j: int|
            at < j < bindings.len() ==> (#[trigger] bindings[j]).node_id != node) ==> machine_of(
            bindings,
            node,
        ) == Some(bindings[at].machine_id@),
    decreases bindings.len(),
{
    if bindings.len() > 0 {
        let rest = bindings.drop_last();
        let last = bindings.len() - 1;
        a_members_machine_is_bound_to_it(rest, node, at);
        if bindings[last].node_id == node {
            assert(bindings.last().node_id == node);
        } else {
            assert forall|i: int| 0 <= i < rest.len() implies rest[i] == bindings[i] by {}
            if machine_of(bindings, node) is None {
                assert forall|i: int| 0 <= i < bindings.len() implies (
                #[trigger] bindings[i]).node_id != node by {
                    if i < last {
                        assert(rest[i].node_id != node);
                    }
                }
            }
            if forall|i: int| 0 <= i < bindings.len() ==> (#[trigger] bindings[i]).node_id != node {
                assert forall|i: int| 0 <= i < rest.len() implies (#[trigger] rest[i]).node_id
                    != node by {
                    assert(bindings[i].node_id != node);
                }
            }
            if 0 <= at < last && bindings[at].node_id == node && (forall|j: int|
                at < j < bindings.len() ==> (#[trigger] bindings[j]).node_id != node) {
                assert(rest[at] == bindings[at]);
                assert forall|j: int| at < j < rest.len() implies (#[trigger] rest[j]).node_id
                    != node by {
                    assert(bindings[j].node_id != node);
                }
            }
        }
    }
}

/// The document says under each key what the answer says, and is marked as the
/// leader's exactly where the answering node is the leader it names.
pub proof fn the_document_says_what_the_answer_says(
    s: ClusterStatusResponse,
    v: serde_json::Value,
    m: Map<Seq<char>, Doc>,
)
    requires
        call_ensures(status_document, (&s,), v),
        json_held(v) == Doc::Object(m),
    ensures
        m["node_id"@] == Doc::Number(s.local_node_id as int),
        s.leader_node_id matches Some(id) ==> m["leader"@] == Doc::Number(id as int),
        s.leader_node_id is None ==> m["leader"@] == Doc::Null,
        m["is_leader"@] == Doc::Bool(s.leader_node_id == Some(s.local_node_id)),
        m["term"@] == Doc::Number(s.term as int),
        m["applied_index"@] == Doc::Number(s.last_applied_index as int),
        m["committed_index"@] == Doc::Number(s.known_committed_index as int),
        m["members"@] is List && m["members"@]->List_0.len() == members_of(s).len(),
        m["replication"@] is List && m["replication"@]->List_0.len() == s.replication@.len(),
        m["bindings"@] is List && m["bindings"@]->List_0.len() == s.bindings@.len(),
        m["key_holders"@] is List && m["key_holders"@]->List_0.len() == s.key_holders@.len(),
        m["pending_key_transfers"@] is List && m["pending_key_transfers"@]->List_0.len()
            == s.pending_key_transfers@.len(),
        m["health"@] == health_doc(s),
{
    reveal_strlit("node_id");
    reveal_strlit("leader");
    reveal_strlit("is_leader");
    reveal_strlit("term");
    reveal_strlit("applied_index");
    reveal_strlit("committed_index");
    reveal_strlit("members");
    reveal_strlit("replication");
    reveal_strlit("bindings");
    reveal_strlit("key_holders");
    reveal_strlit("pending_key_transfers");
    reveal_strlit("health");
    assert("node_id"@[0] == 'n' && "members"@[0] == 'm' && "leader"@[0] == 'l' && "health"@[0]
        == 'h' && "replication"@[0] == 'r' && "key_holders"@[0] == 'k');
    let voters = voters_of(s);
    let members = members_of(s);
    let fields = seq![
        ("node_id"@, Doc::Number(s.local_node_id as int)),
        ("leader"@, json::opt_number(s.leader_node_id)),
        ("is_leader"@, Doc::Bool(s.leader_node_id == Some(s.local_node_id))),
        ("term"@, Doc::Number(s.term as int)),
        ("applied_index"@, Doc::Number(s.last_applied_index as int)),
        ("committed_index"@, Doc::Number(s.known_committed_index as int)),
        (
            "members"@,
            Doc::List(members.map_values(|m: RaftMember| member_doc(m, voters, s.bindings@))),
        ),
        (
            "replication"@,
            Doc::List(
                s.replication@.map_values(
                    |row: ReplicationProgress| replication_doc(row, s.last_applied_index),
                ),
            ),
        ),
        ("bindings"@, Doc::List(s.bindings@.map_values(|b: MachineBinding| binding_doc(b)))),
        (
            "key_holders"@,
            Doc::List(s.key_holders@.map_values(|h: KeyHolder| holder_doc(h, voters, members))),
        ),
        (
            "pending_key_transfers"@,
            Doc::List(
                s.pending_key_transfers@.map_values(|p: PendingKeyTransfer| pending_doc(p)),
            ),
        ),
        ("health"@, health_doc(s)),
    ];
    assert(status_doc(s) == json::object_of(fields));
    assert(fields[0].0.len() == 7);
    assert(fields[1].0.len() == 6);
    assert(fields[2].0.len() == 9);
    assert(fields[3].0.len() == 4);
    assert(fields[4].0.len() == 13);
    assert(fields[5].0.len() == 15);
    assert(fields[6].0.len() == 7);
    assert(fields[7].0.len() == 11);
    assert(fields[8].0.len() == 8);
    assert(fields[9].0.len() == 11);
    assert(fields[10].0.len() == 21);
    assert(fields[11].0.len() == 6);
    assert(fields[0].0[0] != fields[6].0[0]);
    assert(fields[1].0[0] != fields[11].0[0]);
    assert(fields[7].0[0] != fields[9].0[0]);
    assert forall|i: int, j: int| 0 <= i < j < 12 implies (#[trigger] fields[i]).0 != (
    #[trigger] fields[j]).0 by {
        assert(i == 0 || i == 1 || i == 2 || i == 3 || i == 4 || i == 5 || i == 6 || i == 7 || i == 8
            || i == 9 || i == 10);
        assert(j == 1 || j == 2 || j == 3 || j == 4 || j == 5 || j == 6 || j == 7 || j == 8 || j == 9
            || j == 10 || j == 11);
    }
    json::a_field_holds_its_value(fields, 0);
    json::a_field_holds_its_value(fields, 1);
    json::a_field_holds_its_value(fields, 2);
    json::a_field_holds_its_value(fields, 3);
    json::a_field_holds_its_value(fields, 4);
    json::a_field_holds_its_value(fields, 5);
    json::a_field_holds_its_value(fields, 6);
    json::a_field_holds_its_value(fields, 7);
    json::a_field_holds_its_value(fields, 8);
    json::a_field_holds_its_value(fields, 9);
    json::a_field_holds_its_value(fields, 10);
    json::a_field_holds_its_value(fields, 11);
}

/// A list that is empty is left out of the table, title and all.
pub proof fn empty_lists_are_left_out(s: ClusterStatusResponse, r: String)
    requires
        call_ensures(render_status, (&s,), r),
        s.key_holders@.len() == 0,
        s.pending_key_transfers@.len() == 0,
        s.replication@.len() == 0,
    ensures
        r@ == heading(s) + member_lines(members_of(s), voters_of(s)),
{
    reveal_strlit("");
    assert(r@ =~= heading(s) + member_lines(members_of(s), voters_of(s)));
}

/// The table names the leader it knows, and says where it is this very node.
pub proof fn the_table_names_the_leader(s: ClusterStatusResponse)
    ensures
        s.leader_node_id is None ==> leader_text(s) == "unknown"@,
        s.leader_node_id == Some(s.local_node_id) ==> leader_text(s) == text::decimal(
            s.local_node_id as nat,
        ) + " (this node)"@,
        s.leader_node_id is Some && s.leader_node_id != Some(s.local_node_id) ==> leader_text(s)
            == text::decimal(s.leader_node_id->0 as nat),
{
}

} // verus!
