//! Auto-scaling-group membership: the one backend that knows who is gone.
//!
//! An instance counts while it is pending or in service. Whatever fails on the
//! way gives no candidates this round. The last listing, while it is fresh,
//! attests that an address is genuinely gone from the group.

use vstd::prelude::*;
use vstd::string::*;

use crate::discovery;
use crate::discovery::push_distinct;
use crate::text;
use crate::text::{decimal_text, listed};
use crate::time;
use crate::time::Duration;

verus! {

/// How long a listing attests anything, in seconds.
pub const ATTESTOR_SNAPSHOT_TTL_SECS: u64 = 30;

/// The lifecycle states whose instances are candidates.
pub open spec fn counts(state: Seq<char>) -> bool {
    state == "Pending"@ || state == "Pending:Wait"@ || state == "Pending:Proceed"@ || state
        == "InService"@
}

/// Whether an instance in this lifecycle state is a candidate. A state that is
/// not known is not: dialing a terminating instance is waste, and leaving one
/// out only delays a dial.
pub fn lifecycle_included(state: &str) -> (r: bool)
    ensures
        r == counts(state@),
{
    text::same(state, "Pending") || text::same(state, "Pending:Wait") || text::same(
        state,
        "Pending:Proceed",
    ) || text::same(state, "InService")
}

/// This instance, as the metadata service names it.
#[derive(Debug, Clone)]
pub struct InstanceIdentity {
    pub instance_id: String,
    pub region: String,
}

/// One member of the group.
#[derive(Debug, Clone)]
pub struct AsgInstance {
    pub instance_id: String,
    pub lifecycle_state: String,
}

/// The private address of an instance: the last that was reported for it.
pub open spec fn ip_of(ips: Seq<(String, String)>, id: Seq<char>) -> Option<Seq<char>>
    decreases ips.len(),
{
    if ips.len() == 0 {
        None
    } else if ips.last().0@ == id {
        Some(ips.last().1@)
    } else {
        ip_of(ips.drop_last(), id)
    }
}

/// The address a member is dialed at, if it counts and its address is known.
pub open spec fn member_addr(m: AsgInstance, ips: Seq<(String, String)>, port: u16) -> Option<
    Seq<char>,
> {
    if counts(m.lifecycle_state@) {
        match ip_of(ips, m.instance_id@) {
            Some(ip) => Some(ip + ":"@ + text::decimal(port as nat)),
            None => None,
        }
    } else {
        None
    }
}

/// The addresses of the members that have one, in listing order.
pub open spec fn member_addrs(
    members: Seq<AsgInstance>,
    ips: Seq<(String, String)>,
    port: u16,
) -> Seq<Seq<char>>
    decreases members.len(),
{
    if members.len() == 0 {
        seq![]
    } else {
        let before = member_addrs(members.drop_last(), ips, port);
        match member_addr(members.last(), ips, port) {
            Some(a) => before.push(a),
            None => before,
        }
    }
}

fn find_ip<'a>(ips: &'a Vec<(String, String)>, id: &str) -> (r: Option<&'a String>)
    ensures
        match r {
            Some(ip) => ip_of(ips@, id@) == Some(ip@),
            None => ip_of(ips@, id@) is None,
        },
{
    let n: usize = ips.len();
    let mut i: usize = n;
    assert(ips@.subrange(0, n as int) =~= ips@);
    while i > 0
        invariant
            n == ips@.len(),
            i <= n,
            ip_of(ips@, id@) == ip_of(ips@.subrange(0, i as int), id@),
        decreases i,
    {
        assert(ips@.subrange(0, i as int).drop_last() =~= ips@.subrange(0, i - 1));
        if text::same(ips[i - 1].0.as_str(), id) {
            return Some(&ips[i - 1].1);
        }
        i = i - 1;
    }
    None
}

/// The candidates of a group listing: the members that count, at their private
/// address and this port, each once in the order they are first seen. A member
/// without an address yet reappears once it has one.
pub fn compose_candidates(
    members: &Vec<AsgInstance>,
    ips: &Vec<(String, String)>,
    port: u16,
) -> (r: Vec<String>)
    ensures
        text::views(r@) == discovery::distinct(member_addrs(members@, ips@, port)),
{
    let mut out: Vec<String> = Vec::new();
    let mut i: usize = 0;
    assert(text::views(out@) =~= discovery::distinct(
        member_addrs(members@.subrange(0, 0), ips@, port),
    ));
    while i < members.len()
        invariant
            i <= members@.len(),
            text::views(out@) == discovery::distinct(
                member_addrs(members@.subrange(0, i as int), ips@, port),
            ),
        decreases members@.len() - i,
    {
        assert(members@.subrange(0, i + 1).drop_last() =~= members@.subrange(0, i as int));
        let ghost before = member_addrs(members@.subrange(0, i as int), ips@, port);
        let m = &members[i];
        if lifecycle_included(m.lifecycle_state.as_str()) {
            if let Some(ip) = find_ip(ips, m.instance_id.as_str()) {
                let addr = ip.as_str().to_owned().concat(":").concat(
                    decimal_text(port as u64).as_str(),
                );
                assert(before.push(addr@).drop_last() =~= before);
                push_distinct(&mut out, addr);
            }
        }
        i = i + 1;
    }
    assert(members@.subrange(0, members@.len() as int) =~= members@);
    out
}

/// What the service reported of one instance: each part may be missing.
#[derive(Debug, Clone)]
pub struct Reported {
    pub instance_id: Option<String>,
    /// The lifecycle state, or the private address.
    pub value: Option<String>,
}

/// The first group any of the reports names.
pub open spec fn first_group(reports: Seq<Option<String>>) -> Option<Seq<char>>
    decreases reports.len(),
{
    if reports.len() == 0 {
        None
    } else {
        match reports[0] {
            Some(g) => Some(g@),
            None => first_group(reports.subrange(1, reports.len() as int)),
        }
    }
}

/// The group an instance belongs to: the first its own reports name.
pub fn own_group(instance_id: &str, reports: &Vec<Option<String>>) -> (r: Result<String, String>)
    ensures
        match first_group(reports@) {
            Some(g) => r matches Ok(name) && name@ == g,
            None => r matches Err(e) && e@ == "instance "@ + instance_id@
                + " is not a member of any auto scaling group"@,
        },
{
    let mut i: usize = 0;
    assert(reports@.subrange(0, reports@.len() as int) =~= reports@);
    while i < reports.len()
        invariant
            i <= reports@.len(),
            first_group(reports@) == first_group(
                reports@.subrange(i as int, reports@.len() as int),
            ),
        decreases reports@.len() - i,
    {
        let ghost rest = reports@.subrange(i as int, reports@.len() as int);
        assert(rest.subrange(1, rest.len() as int) =~= reports@.subrange(
            i + 1,
            reports@.len() as int,
        ));
        if let Some(g) = &reports[i] {
            return Ok(g.clone());
        }
        i = i + 1;
    }
    Err(
        "instance ".to_owned().concat(instance_id).concat(
            " is not a member of any auto scaling group",
        ),
    )
}

/// The members a group listing reports, as pairs of identifier and state. One
/// without an identifier is skipped; one without a state has the empty one.
pub open spec fn members_reported(reports: Seq<Reported>) -> Seq<(Seq<char>, Seq<char>)>
    decreases reports.len(),
{
    if reports.len() == 0 {
        seq![]
    } else {
        let before = members_reported(reports.drop_last());
        match reports.last().instance_id {
            Some(id) => before.push(
                (
                    id@,
                    match reports.last().value {
                        Some(state) => state@,
                        None => ""@,
                    },
                ),
            ),
            None => before,
        }
    }
}

/// Members as pairs of identifier and state.
pub open spec fn member_views(members: Seq<AsgInstance>) -> Seq<(Seq<char>, Seq<char>)> {
    members.map_values(|m: AsgInstance| (m.instance_id@, m.lifecycle_state@))
}

/// The members of a group listing.
pub fn group_instances(reports: &Vec<Reported>) -> (r: Vec<AsgInstance>)
    ensures
        member_views(r@) == members_reported(reports@),
{
    let mut out: Vec<AsgInstance> = Vec::new();
    let mut i: usize = 0;
    assert(member_views(out@) =~= members_reported(reports@.subrange(0, 0)));
    while i < reports.len()
        invariant
            i <= reports@.len(),
            member_views(out@) == members_reported(reports@.subrange(0, i as int)),
        decreases reports@.len() - i,
    {
        assert(reports@.subrange(0, i + 1).drop_last() =~= reports@.subrange(0, i as int));
        if let Some(id) = &reports[i].instance_id {
            let lifecycle_state = match &reports[i].value {
                Some(state) => state.clone(),
                None => "".to_owned(),
            };
            let m = AsgInstance { instance_id: id.clone(), lifecycle_state };
            assert(member_views(out@.push(m)) =~= member_views(out@).push(
                (m.instance_id@, m.lifecycle_state@),
            ));
            out.push(m);
        }
        i = i + 1;
    }
    assert(reports@.subrange(0, reports@.len() as int) =~= reports@);
    out
}

/// The private address the reports give an instance: the last that names both.
pub open spec fn ip_reported(reports: Seq<Reported>, id: Seq<char>) -> Option<Seq<char>>
    decreases reports.len(),
{
    if reports.len() == 0 {
        None
    } else {
        let last = reports.last();
        if last.instance_id is Some && last.value is Some && last.instance_id->0@ == id {
            Some(last.value->0@)
        } else {
            ip_reported(reports.drop_last(), id)
        }
    }
}

/// The private addresses an instance listing reports. An instance without one
/// is left out.
pub fn private_ips(reports: &Vec<Reported>) -> (r: Vec<(String, String)>)
    ensures
        forall|id: Seq<char>| #[trigger] ip_of(r@, id) == ip_reported(reports@, id),
{
    let mut out: Vec<(String, String)> = Vec::new();
    let mut i: usize = 0;
    while i < reports.len()
        invariant
            i <= reports@.len(),
            forall|id: Seq<char>| #[trigger]
                ip_of(out@, id) == ip_reported(reports@.subrange(0, i as int), id),
        decreases reports@.len() - i,
    {
        assert(reports@.subrange(0, i + 1).drop_last() =~= reports@.subrange(0, i as int));
        let ghost before = out@;
        if let (Some(id), Some(ip)) = (&reports[i].instance_id, &reports[i].value) {
            out.push((id.clone(), ip.clone()));
            assert(out@.drop_last() =~= before);
        }
        assert forall|id: Seq<char>| #[trigger]
            ip_of(out@, id) == ip_reported(reports@.subrange(0, i + 1), id) by {
            assert(ip_of(before, id) == ip_reported(reports@.subrange(0, i as int), id));
        }
        i = i + 1;
    }
    assert(reports@.subrange(0, reports@.len() as int) =~= reports@);
    out
}

/// The identifiers of the members that count, in listing order.
pub open spec fn wanted_ids(members: Seq<AsgInstance>) -> Seq<Seq<char>>
    decreases members.len(),
{
    if members.len() == 0 {
        seq![]
    } else {
        let before = wanted_ids(members.drop_last());
        if counts(members.last().lifecycle_state@) {
            before.push(members.last().instance_id@)
        } else {
            before
        }
    }
}

/// Whose addresses to ask for: only those of members that count.
pub fn wanted(members: &Vec<AsgInstance>) -> (r: Vec<String>)
    ensures
        text::views(r@) == wanted_ids(members@),
{
    let mut out: Vec<String> = Vec::new();
    let mut i: usize = 0;
    assert(text::views(out@) =~= wanted_ids(members@.subrange(0, 0)));
    while i < members.len()
        invariant
            i <= members@.len(),
            text::views(out@) == wanted_ids(members@.subrange(0, i as int)),
        decreases members@.len() - i,
    {
        assert(members@.subrange(0, i + 1).drop_last() =~= members@.subrange(0, i as int));
        if lifecycle_included(members[i].lifecycle_state.as_str()) {
            let id = members[i].instance_id.clone();
            assert(text::views(out@.push(id)) =~= text::views(out@).push(id@));
            out.push(id);
        }
        i = i + 1;
    }
    assert(members@.subrange(0, members@.len() as int) =~= members@);
    out
}

// ---------------------------------------------------------------------------
// Attesting absence
// ---------------------------------------------------------------------------

/// Where an address stands against the last listing.
#[derive(Debug, Clone, Copy, PartialEq, Eq, Structural)]
pub enum Presence {
    Present,
    /// The listing is fresh and does not hold the address.
    Absent,
    /// There is no listing, or it is stale.
    Unknown,
}

/// The last listing, and when it was fetched, as time since some fixed
/// instant.
#[derive(Debug, Clone)]
pub struct Snapshot {
    pub addrs: Vec<String>,
    pub fetched_at: Option<Duration>,
}

/// Whether a listing is fresh.
pub open spec fn fresh(fetched_at: Option<nat>, ttl: nat, now: nat) -> bool {
    fetched_at matches Some(at) && now - at <= ttl
}

/// Where an address stands.
pub open spec fn stands(
    addrs: Seq<Seq<char>>,
    fetched_at: Option<nat>,
    ttl: nat,
    now: nat,
    addr: Seq<char>,
) -> Presence {
    if !fresh(fetched_at, ttl, now) {
        Presence::Unknown
    } else if addrs.contains(addr) {
        Presence::Present
    } else {
        Presence::Absent
    }
}

/// The view of an optional instant.
pub open spec fn instant(at: Option<Duration>) -> Option<nat> {
    match at {
        Some(d) => Some(d@),
        None => None,
    }
}

/// Where an address stands against a listing.
pub fn presence(snapshot: &Snapshot, ttl: &Duration, now: &Duration, addr: &str) -> (r: Presence)
    ensures
        r == stands(text::views(snapshot.addrs@), instant(snapshot.fetched_at), ttl@, now@, addr@),
{
    let at = match &snapshot.fetched_at {
        Some(at) => at,
        None => return Presence::Unknown,
    };
    let since: u128 = if now.as_nanos() >= at.as_nanos() {
        now.as_nanos() - at.as_nanos()
    } else {
        0
    };
    if since > ttl.as_nanos() {
        Presence::Unknown
    } else if listed(&snapshot.addrs, addr) {
        Presence::Present
    } else {
        Presence::Absent
    }
}

/// Answers whether a departed voter's address is gone from the group.
#[derive(Debug, Clone)]
pub struct Ec2AsgAttestor {
    pub ttl: Duration,
    pub snapshot: Snapshot,
}

impl Ec2AsgAttestor {
    /// Whether no listing was ever handed in.
    pub open spec fn never_fed(self) -> bool {
        self.snapshot.fetched_at is None && self.snapshot.addrs@.len() == 0
    }

    pub fn new(ttl: Duration) -> (r: Ec2AsgAttestor)
        ensures
            r.ttl == ttl,
            r.never_fed(),
    {
        Ec2AsgAttestor { ttl, snapshot: Snapshot { addrs: Vec::new(), fetched_at: None } }
    }

    /// Put a fresh listing in place of the last.
    pub fn update_snapshot(&mut self, addrs: &Vec<String>, now: Duration)
        ensures
            final(self).ttl == old(self).ttl,
            text::views(final(self).snapshot.addrs@) == text::views(addrs@),
            final(self).snapshot.fetched_at == Some(now),
    {
        self.snapshot = Snapshot { addrs: text::copy_all(addrs), fetched_at: Some(now) };
    }

    /// Whether the voter at an address is attested gone. Only a fresh listing that lacks it
    /// does; anything less answers no, so that a voter that may live is never
    /// removed on weak evidence.
    pub fn is_absent(&self, _node_id: u64, addr: &str, now: &Duration) -> (r: bool)
        ensures
            r == (stands(
                text::views(self.snapshot.addrs@),
                instant(self.snapshot.fetched_at),
                self.ttl@,
                now@,
                addr@,
            ) == Presence::Absent),
    {
        match presence(&self.snapshot, &self.ttl, now, addr) {
            Presence::Absent => true,
            _ => false,
        }
    }
}

/// Absence is never attested on missing or stale evidence, nor of an address
/// the listing holds.
pub proof fn absence_is_attested_on_fresh_evidence_only(
    addrs: Seq<Seq<char>>,
    fetched_at: Option<nat>,
    ttl: nat,
    now: nat,
    addr: Seq<char>,
)
    ensures
        stands(addrs, fetched_at, ttl, now, addr) == Presence::Absent ==> fetched_at is Some
            && now - fetched_at->0 <= ttl && !addrs.contains(addr),
{
}

// ---------------------------------------------------------------------------
// The backend
// ---------------------------------------------------------------------------

/// The backend.
#[derive(Debug, Clone)]
pub struct Ec2AsgDiscovery {
    pub port: u16,
    /// The region, unless the metadata service is to name it.
    pub region: Option<String>,
    /// What each outside call may take.
    pub timeout: Duration,
    pub attestor: Ec2AsgAttestor,
}

impl Ec2AsgDiscovery {
    pub fn new(port: u16, region: Option<String>, timeout: Duration) -> (r: Ec2AsgDiscovery)
        ensures
            r.port == port,
            r.region == region,
            r.timeout == timeout,
            r.attestor.ttl@ == ATTESTOR_SNAPSHOT_TTL_SECS * time::SECOND,
            r.attestor.never_fed(),
    {
        Ec2AsgDiscovery {
            port,
            region,
            timeout,
            attestor: Ec2AsgAttestor::new(Duration::from_secs(ATTESTOR_SNAPSHOT_TTL_SECS)),
        }
    }

    /// One consultation ended at `now`. Each part is absent when its call
    /// failed or ran out of time; then there are no candidates, and the
    /// attestor keeps the listing it had. A complete one feeds the attestor.
    pub fn candidates(
        &mut self,
        members: &Option<Vec<AsgInstance>>,
        ips: &Option<Vec<(String, String)>>,
        now: Duration,
    ) -> (r: Vec<String>)
        ensures
            final(self).port == old(self).port,
            final(self).region == old(self).region,
            final(self).timeout == old(self).timeout,
            final(self).attestor.ttl == old(self).attestor.ttl,
            if *members is Some && *ips is Some {
                &&& text::views(r@) == discovery::distinct(
                    member_addrs((*members)->0@, (*ips)->0@, old(self).port),
                )
                &&& text::views(final(self).attestor.snapshot.addrs@) == text::views(r@)
                &&& final(self).attestor.snapshot.fetched_at == Some(now)
            } else {
                &&& r@.len() == 0
                &&& final(self).attestor == old(self).attestor
            },
    {
        match (members, ips) {
            (Some(members), Some(ips)) => {
                let found = compose_candidates(members, ips, self.port);
                self.attestor.update_snapshot(&found, now);
                found
            },
            _ => Vec::new(),
        }
    }
}

// ---------------------------------------------------------------------------
// What a listing comes to
// ---------------------------------------------------------------------------

/// An instance counts while it is pending or in service, and in no other
/// state.
pub proof fn four_states_count(state: &str, r: bool)
    requires
        call_ensures(lifecycle_included, (state,), r),
    ensures
        r <==> state@ == "Pending"@ || state@ == "Pending:Wait"@ || state@ == "Pending:Proceed"@
            || state@ == "InService"@,
        r == counts(state@),
{
}

proof fn ip_of_is_the_last(ips: Seq<(String, String)>, id: Seq<char>, at: int)
    ensures
        ip_of(ips, id) is None <==> forall|i: int|
            0 <= i < ips.len() ==> (#[trigger] ips[i]).0@ != id,
        0 <= at < ips.len() && ips[at].0@ == id && (forall|j: int|
            at < j < ips.len() ==> (#[trigger] ips[j]).0@ != id) ==> ip_of(ips, id) == Some(
            ips[at].1@,
        ),
    decreases ips.len(),
{
    if ips.len() > 0 {
        let rest = ips.drop_last();
        let last = ips.len() - 1;
        ip_of_is_the_last(rest, id, at);
        if ips[last].0@ == id {
            assert(ips.last().0@ == id);
        } else {
            if ip_of(ips, id) is None {
                assert forall|i: int| 0 <= i < ips.len() implies (#[trigger] ips[i]).0@ != id by {
                    if i < last {
                        assert(rest[i].0@ != id);
                    }
                }
            }
            if forall|i: int| 0 <= i < ips.len() ==> (#[trigger] ips[i]).0@ != id {
                assert forall|i: int| 0 <= i < rest.len() implies (#[trigger] rest[i]).0@ != id by {
                    assert(ips[i].0@ != id);
                }
            }
            if 0 <= at < last && ips[at].0@ == id && (forall|j: int|
                at < j < ips.len() ==> (#[trigger] ips[j]).0@ != id) {
                assert(rest[at] == ips[at]);
                assert forall|j: int| at < j < rest.len() implies (#[trigger] rest[j]).0@ != id by {
                    assert(ips[j].0@ != id);
                }
            }
        }
    }
}

proof fn member_addrs_are_the_counted(
    members: Seq<AsgInstance>,
    ips: Seq<(String, String)>,
    port: u16,
    x: Seq<char>,
)
    ensures
        member_addrs(members, ips, port).contains(x) <==> exists|i: int|
            0 <= i < members.len() && member_addr(#[trigger] members[i], ips, port) == Some(x),
    decreases members.len(),
{
    if members.len() > 0 {
        let rest = members.drop_last();
        let last = members.last();
        member_addrs_are_the_counted(rest, ips, port, x);
        let before = member_addrs(rest, ips, port);
        let all = member_addrs(members, ips, port);
        assert(members[members.len() - 1] == last);
        if before.contains(x) {
            let k = choose|k: int| 0 <= k < before.len() && before[k] == x;
            assert(all[k] == x);
            let i = choose|i: int|
                0 <= i < rest.len() && member_addr(#[trigger] rest[i], ips, port) == Some(x);
            assert(members[i] == rest[i]);
        }
        if member_addr(last, ips, port) == Some(x) {
            assert(all[before.len() as int] == x);
        }
        if all.contains(x) && !before.contains(x) {
            let k = choose|k: int| 0 <= k < all.len() && all[k] == x;
            assert(k >= before.len() || before[k] == x);
        }
        if exists|i: int|
            0 <= i < members.len() && member_addr(#[trigger] members[i], ips, port) == Some(x) {
            let i = choose|i: int|
                0 <= i < members.len() && member_addr(#[trigger] members[i], ips, port) == Some(x);
            if i < rest.len() {
                assert(rest[i] == members[i]);
            }
        }
    }
}

/// A member that counts is a candidate at the address last reported for it,
/// each address once; a member that does not count, or has no address, is
/// none.
pub proof fn a_counting_member_is_a_candidate(
    members: Vec<AsgInstance>,
    ips: Vec<(String, String)>,
    port: u16,
    m: int,
    at: int,
    r: Vec<String>,
)
    requires
        call_ensures(compose_candidates, (&members, &ips, port), r),
    ensures
        text::views(r@).no_duplicates(),
        0 <= m < members@.len() && counts(members@[m].lifecycle_state@) && 0 <= at < ips@.len()
            && ips@[at].0@ == members@[m].instance_id@ && (forall|j: int|
            at < j < ips@.len() ==> (#[trigger] ips@[j]).0@ != members@[m].instance_id@)
            ==> text::views(r@).contains(ips@[at].1@ + ":"@ + text::decimal(port as nat)),
        (forall|i: int| 0 <= i < members@.len() ==> !counts((#[trigger] members@[i]).lifecycle_state@))
            ==> r@.len() == 0,
        ips@.len() == 0 ==> r@.len() == 0,
{
    let all = member_addrs(members@, ips@, port);
    discovery::distinct_keeps_each_once(all);
    assert(text::views(r@).len() == r@.len());
    if 0 <= m < members@.len() && 0 <= at < ips@.len() {
        ip_of_is_the_last(ips@, members@[m].instance_id@, at);
        let x = ips@[at].1@ + ":"@ + text::decimal(port as nat);
        member_addrs_are_the_counted(members@, ips@, port, x);
        if counts(members@[m].lifecycle_state@) && ips@[at].0@ == members@[m].instance_id@ && (
        forall|j: int| at < j < ips@.len() ==> (#[trigger] ips@[j]).0@ != members@[m].instance_id@) {
            assert(member_addr(members@[m], ips@, port) == Some(x));
        }
    }
    if r@.len() > 0 {
        let x = text::views(r@)[0];
        assert(text::views(r@).contains(x));
        member_addrs_are_the_counted(members@, ips@, port, x);
        let i = choose|i: int|
            0 <= i < members@.len() && member_addr(#[trigger] members@[i], ips@, port) == Some(x);
        assert(counts(members@[i].lifecycle_state@));
    }
}

/// The group of an instance is the first that its reports name, and it has
/// none exactly where none does.
pub proof fn the_first_named_group_is_taken(
    instance_id: &str,
    reports: Vec<Option<String>>,
    at: int,
    r: Result<String, String>,
)
    requires
        call_ensures(own_group, (instance_id, &reports), r),
    ensures
        r is Err <==> forall|i: int| 0 <= i < reports@.len() ==> (#[trigger] reports@[i]) is None,
        0 <= at < reports@.len() && reports@[at] is Some && (forall|j: int|
            0 <= j < at ==> (#[trigger] reports@[j]) is None) ==> (r matches Ok(g) && g@
            == reports@[at]->0@),
{
    first_group_is_first(reports@, at);
}

proof fn first_group_is_first(reports: Seq<Option<String>>, at: int)
    ensures
        first_group(reports) is None <==> forall|i: int|
            0 <= i < reports.len() ==> (#[trigger] reports[i]) is None,
        0 <= at < reports.len() && reports[at] is Some && (forall|j: int|
            0 <= j < at ==> (#[trigger] reports[j]) is None) ==> first_group(reports) == Some(
            reports[at]->0@,
        ),
    decreases reports.len(),
{
    if reports.len() > 0 {
        let rest = reports.subrange(1, reports.len() as int);
        first_group_is_first(rest, at - 1);
        if reports[0] is None {
            if first_group(reports) is None {
                assert forall|i: int| 0 <= i < reports.len() implies (
                #[trigger] reports[i]) is None by {
                    if i > 0 {
                        assert(rest[i - 1] is None);
                    }
                }
            }
            if forall|i: int| 0 <= i < reports.len() ==> (#[trigger] reports[i]) is None {
                assert forall|i: int| 0 <= i < rest.len() implies (#[trigger] rest[i]) is None by {
                    assert(reports[i + 1] is None);
                }
            }
            if 0 < at < reports.len() && reports[at] is Some && (forall|j: int|
                0 <= j < at ==> (#[trigger] reports[j]) is None) {
                assert(rest[at - 1] == reports[at]);
                assert forall|j: int| 0 <= j < at - 1 implies (#[trigger] rest[j]) is None by {
                    assert(reports[j + 1] is None);
                }
            }
        }
    }
}

/// Absence is attested exactly by a listing that was fetched no longer ago
/// than it lasts and does not hold the address.
pub proof fn absence_is_attested_by_a_fresh_listing(
    attestor: Ec2AsgAttestor,
    node: u64,
    addr: &str,
    now: Duration,
    r: bool,
)
    requires
        call_ensures(Ec2AsgAttestor::is_absent, (&attestor, node, addr, &now), r),
    ensures
        r <==> attestor.snapshot.fetched_at is Some && now@
            <= attestor.snapshot.fetched_at->0@ + attestor.ttl@ && !text::views(
            attestor.snapshot.addrs@,
        ).contains(addr@),
{
}

/// A listing stands for an address in exactly one of three ways.
pub proof fn a_listing_knows_while_it_is_fresh(
    snapshot: Snapshot,
    ttl: Duration,
    now: Duration,
    addr: &str,
    r: Presence,
)
    requires
        call_ensures(presence, (&snapshot, &ttl, &now, addr), r),
    ensures
        r == Presence::Unknown <==> snapshot.fetched_at is None || now@
            > snapshot.fetched_at->0@ + ttl@,
        r == Presence::Present ==> text::views(snapshot.addrs@).contains(addr@),
        r == Presence::Absent ==> !text::views(snapshot.addrs@).contains(addr@),
{
}

/// A complete consultation feeds the attestor with what it found, at that
/// instant; an incomplete one finds nothing and leaves the attestor alone.
pub proof fn only_a_complete_listing_feeds_the_attestor(
    d: &mut Ec2AsgDiscovery,
    members: Option<Vec<AsgInstance>>,
    ips: Option<Vec<(String, String)>>,
    now: Duration,
    r: Vec<String>,
)
    requires
        call_ensures(Ec2AsgDiscovery::candidates, (d, &members, &ips, now), r),
    ensures
        members is None || ips is None ==> r@.len() == 0 && final(d).attestor == old(d).attestor,
        members is Some && ips is Some ==> final(d).attestor.snapshot.fetched_at == Some(now)
            && text::views(final(d).attestor.snapshot.addrs@) == text::views(r@),
        final(d).port == old(d).port,
        final(d).attestor.ttl == old(d).attestor.ttl,
{
}

/// A listing put in place replaces the last, at its instant.
pub proof fn a_fresh_listing_replaces_the_last(
    attestor: &mut Ec2AsgAttestor,
    addrs: Vec<String>,
    now: Duration,
)
    requires
        call_ensures(Ec2AsgAttestor::update_snapshot, (attestor, &addrs, now), ()),
    ensures
        text::views(final(attestor).snapshot.addrs@) == text::views(addrs@),
        final(attestor).snapshot.fetched_at == Some(now),
        final(attestor).ttl == old(attestor).ttl,
{
}

/// Addresses are asked for of the members that count, and of no other.
pub proof fn only_counting_members_are_wanted(members: Seq<AsgInstance>, x: Seq<char>)
    ensures
        wanted_ids(members).contains(x) <==> exists|i: int|
            0 <= i < members.len() && counts((#[trigger] members[i]).lifecycle_state@)
                && members[i].instance_id@ == x,
    decreases members.len(),
{
    if members.len() > 0 {
        let rest = members.drop_last();
        let last = members.last();
        only_counting_members_are_wanted(rest, x);
        let before = wanted_ids(rest);
        let all = wanted_ids(members);
        assert(members[members.len() - 1] == last);
        if before.contains(x) {
            let k = choose|k: int| 0 <= k < before.len() && before[k] == x;
            assert(all[k] == x);
            let i = choose|i: int|
                0 <= i < rest.len() && counts((#[trigger] rest[i]).lifecycle_state@)
                    && rest[i].instance_id@ == x;
            assert(members[i] == rest[i]);
        }
        if counts(last.lifecycle_state@) && last.instance_id@ == x {
            assert(all[before.len() as int] == x);
        }
        if all.contains(x) && !before.contains(x) {
            let k = choose|k: int| 0 <= k < all.len() && all[k] == x;
            assert(k >= before.len() || before[k] == x);
        }
        if exists|i: int|
            0 <= i < members.len() && counts((#[trigger] members[i]).lifecycle_state@)
                && members[i].instance_id@ == x {
            let i = choose|i: int|
                0 <= i < members.len() && counts((#[trigger] members[i]).lifecycle_state@)
                    && members[i].instance_id@ == x;
            if i < rest.len() {
                assert(rest[i] == members[i]);
            }
        }
    }
}

/// An attestor starts without evidence, and attests nothing until it is given
/// some.
pub proof fn an_attestor_starts_without_evidence(
    ttl: Duration,
    attestor: Ec2AsgAttestor,
    node: u64,
    addr: &str,
    now: Duration,
    r: bool,
)
    requires
        call_ensures(Ec2AsgAttestor::new, (ttl,), attestor),
        call_ensures(Ec2AsgAttestor::is_absent, (&attestor, node, addr, &now), r),
    ensures
        attestor.ttl@ == ttl@,
        attestor.snapshot.fetched_at is None,
        attestor.snapshot.addrs@.len() == 0,
        !r,
{
}

} // verus!
