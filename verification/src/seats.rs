//! The seats of a membership in canonical order: ascending by identifier,
//! those of one identifier in the order they came in.

use vstd::prelude::*;

use crate::cluster::MemberSummary;

verus! {

/// One member by identifier and address.
pub type Seat = (u64, Seq<char>);

/// The seats of a membership summary, in its order.
pub open spec fn seats_of(members: Seq<MemberSummary>) -> Seq<Seat> {
    members.map_values(|m: MemberSummary| (m.id, m.addr@))
}

/// Whether seats stand in ascending order of their identifiers.
pub open spec fn in_order(s: Seq<Seat>) -> bool {
    forall|i: int, j: int| 0 <= i <= j < s.len() ==> (#[trigger] s[i]).0 <= (#[trigger] s[j]).0
}

/// How many of the leading seats a seat with this identifier goes behind: all
/// of them up to the last that is not greater.
pub open spec fn place_of(s: Seq<Seat>, id: u64) -> int
    decreases s.len(),
{
    if s.len() == 0 {
        0
    } else if s.last().0 <= id {
        s.len() as int
    } else {
        place_of(s.drop_last(), id)
    }
}

/// The seats in ascending order, those of one identifier in the order they
/// came in.
pub open spec fn settled(s: Seq<Seat>) -> Seq<Seat>
    decreases s.len(),
{
    if s.len() == 0 {
        seq![]
    } else {
        let before = settled(s.drop_last());
        before.insert(place_of(before, s.last().0), s.last())
    }
}

proof fn place_bounds(s: Seq<Seat>, id: u64)
    ensures
        0 <= place_of(s, id) <= s.len(),
        place_of(s, id) > 0 ==> s[place_of(s, id) - 1].0 <= id,
        forall|i: int| place_of(s, id) <= i < s.len() ==> (#[trigger] s[i]).0 > id,
    decreases s.len(),
{
    if s.len() > 0 && s.last().0 > id {
        place_bounds(s.drop_last(), id);
        assert forall|i: int| place_of(s, id) <= i < s.len() implies (#[trigger] s[i]).0 > id by {
            if i < s.len() - 1 {
                assert(s.drop_last()[i] == s[i]);
            }
        }
    }
}

proof fn inserted_multiset(s: Seq<Seat>, at: int, x: Seat)
    requires
        0 <= at <= s.len(),
    ensures
        s.insert(at, x).to_multiset() =~= s.to_multiset().insert(x),
{
    broadcast use vstd::seq_lib::group_to_multiset_ensures;

    assert(s =~= s.subrange(0, at) + s.subrange(at, s.len() as int));
    assert(s.insert(at, x) =~= s.subrange(0, at).push(x) + s.subrange(at, s.len() as int));
    vstd::seq_lib::lemma_multiset_commutative(
        s.subrange(0, at).push(x),
        s.subrange(at, s.len() as int),
    );
    vstd::seq_lib::lemma_multiset_commutative(s.subrange(0, at), s.subrange(at, s.len() as int));
}

/// Settling puts the seats in ascending order and keeps every one of them.
pub proof fn settling_sorts(s: Seq<Seat>)
    ensures
        in_order(settled(s)),
        settled(s).to_multiset() == s.to_multiset(),
        settled(s).len() == s.len(),
    decreases s.len(),
{
    broadcast use vstd::seq_lib::group_to_multiset_ensures;

    if s.len() > 0 {
        let before = settled(s.drop_last());
        let x = s.last();
        settling_sorts(s.drop_last());
        place_bounds(before, x.0);
        inserted_multiset(before, place_of(before, x.0), x);
        assert(s =~= s.drop_last().push(x));
        let after = settled(s);
        let at = place_of(before, x.0);
        assert forall|i: int, j: int| 0 <= i <= j < after.len() implies (#[trigger] after[i]).0
            <= (#[trigger] after[j]).0 by {
            let p = if i < at {
                i
            } else {
                i - 1
            };
            let q = if j < at {
                j
            } else {
                j - 1
            };
            if i != at && j != at {
                assert(before[p].0 <= before[q].0);
            } else if i == at && j != at {
                assert(before[q].0 > x.0);
            } else if j == at && i != at {
                assert(before[p].0 <= before[at - 1].0);
            }
        }
    } else {
        assert(settled(s) =~= s);
    }
}

/// A membership that is in order stays as it is.
pub proof fn settling_is_idle_on_order(s: Seq<Seat>)
    requires
        in_order(s),
    ensures
        settled(s) == s,
    decreases s.len(),
{
    if s.len() > 0 {
        assert(in_order(s.drop_last())) by {
            assert forall|i: int, j: int|
                0 <= i <= j < s.drop_last().len() implies (#[trigger] s.drop_last()[i]).0 <= (
            #[trigger] s.drop_last()[j]).0 by {
                assert(s[i].0 <= s[j].0);
            }
        }
        settling_is_idle_on_order(s.drop_last());
        let before = s.drop_last();
        if before.len() > 0 {
            assert(s[before.len() - 1].0 <= s[s.len() - 1].0);
            assert(before.last() == s[before.len() - 1]);
        }
        assert(place_of(before, s.last().0) == before.len());
        assert(before.insert(before.len() as int, s.last()) =~= s);
    } else {
        assert(settled(s) =~= s);
    }
}

/// The seats of the voters, in membership order.
pub open spec fn voter_seats_of(members: Seq<MemberSummary>) -> Seq<Seat>
    decreases members.len(),
{
    if members.len() == 0 {
        seq![]
    } else if members.last().voter {
        voter_seats_of(members.drop_last()).push((members.last().id, members.last().addr@))
    } else {
        voter_seats_of(members.drop_last())
    }
}

/// The seats that entries stand for.
pub open spec fn entries(e: Seq<(u64, String)>) -> Seq<Seat> {
    e.map_values(|x: (u64, String)| (x.0, x.1@))
}

/// Every seat of a membership, in its order.
pub fn all_seats(members: &Vec<MemberSummary>) -> (r: Vec<(u64, String)>)
    ensures
        entries(r@) == seats_of(members@),
{
    let mut out: Vec<(u64, String)> = Vec::new();
    let mut i: usize = 0;
    while i < members.len()
        invariant
            i <= members@.len(),
            entries(out@) =~= seats_of(members@).subrange(0, i as int),
        decreases members@.len() - i,
    {
        let e = (members[i].id, members[i].addr.clone());
        assert(entries(out@.push(e)) =~= entries(out@).push((e.0, e.1@)));
        out.push(e);
        i = i + 1;
    }
    assert(entries(out@) =~= seats_of(members@));
    out
}

/// The voters' seats, in membership order.
pub fn voter_seats(members: &Vec<MemberSummary>) -> (r: Vec<(u64, String)>)
    ensures
        entries(r@) == voter_seats_of(members@),
{
    let mut out: Vec<(u64, String)> = Vec::new();
    let mut i: usize = 0;
    assert(entries(out@) =~= voter_seats_of(members@.subrange(0, 0)));
    while i < members.len()
        invariant
            i <= members@.len(),
            entries(out@) == voter_seats_of(members@.subrange(0, i as int)),
        decreases members@.len() - i,
    {
        assert(members@.subrange(0, i + 1).drop_last() =~= members@.subrange(0, i as int));
        if members[i].voter {
            let e = (members[i].id, members[i].addr.clone());
            assert(entries(out@.push(e)) =~= entries(out@).push((e.0, e.1@)));
            out.push(e);
        }
        i = i + 1;
    }
    assert(members@.subrange(0, members@.len() as int) =~= members@);
    out
}

/// The seats in canonical order.
pub fn settle(seats: Vec<(u64, String)>) -> (r: Vec<(u64, String)>)
    ensures
        entries(r@) == settled(entries(seats@)),
{
    let mut out: Vec<(u64, String)> = Vec::new();
    let mut i: usize = 0;
    let ghost all = entries(seats@);
    assert(entries(out@) =~= settled(all.subrange(0, 0)));
    while i < seats.len()
        invariant
            i <= seats@.len(),
            all == entries(seats@),
            entries(out@) == settled(all.subrange(0, i as int)),
        decreases seats@.len() - i,
    {
        let id = seats[i].0;
        let ghost before = entries(out@);
        let n: usize = out.len();
        let mut at: usize = n;
        assert(before.subrange(0, n as int) =~= before);
        while at > 0 && out[at - 1].0 > id
            invariant
                at <= n,
                n == out@.len(),
                before == entries(out@),
                place_of(before, id) == place_of(before.subrange(0, at as int), id),
            decreases at,
        {
            assert(before.subrange(0, at as int).drop_last() =~= before.subrange(0, at - 1));
            at = at - 1;
        }
        assert(place_of(before, id) == at);
        assert(all.subrange(0, i + 1).drop_last() =~= all.subrange(0, i as int));
        let e = (id, seats[i].1.clone());
        assert(all.subrange(0, i + 1).last() == (e.0, e.1@));
        assert(entries(out@.insert(at as int, e)) =~= before.insert(at as int, (e.0, e.1@)));
        out.insert(at, e);
        i = i + 1;
    }
    assert(all.subrange(0, seats@.len() as int) =~= all);
    out
}

/// Every member has its seat, in order, under its own id and address.
pub proof fn every_member_has_a_seat(members: Vec<MemberSummary>, at: int, r: Vec<(u64, String)>)
    requires
        call_ensures(all_seats, (&members,), r),
    ensures
        r@.len() == members@.len(),
        0 <= at < r@.len() ==> r@[at].0 == members@[at].id && r@[at].1@ == members@[at].addr@,
{
    assert(entries(r@).len() == seats_of(members@).len());
    if 0 <= at < r@.len() {
        assert(entries(r@)[at] == seats_of(members@)[at]);
    }
}

/// A voters' seat is some voter's, and every voter has one.
pub proof fn every_voter_has_a_seat(members: Vec<MemberSummary>, x: Seat, r: Vec<(u64, String)>)
    requires
        call_ensures(voter_seats, (&members,), r),
    ensures
        entries(r@).contains(x) <==> exists|i: int|
            0 <= i < members@.len() && (#[trigger] members@[i]).voter && members@[i].id == x.0
                && members@[i].addr@ == x.1,
{
    voter_seats_are_the_voters(members@, x);
}

/// The seats of the voters are those of the members that vote.
pub proof fn voter_seats_are_the_voters(members: Seq<MemberSummary>, x: Seat)
    ensures
        voter_seats_of(members).contains(x) <==> exists|i: int|
            0 <= i < members.len() && (#[trigger] members[i]).voter && members[i].id == x.0
                && members[i].addr@ == x.1,
        voter_seats_of(members).len() <= members.len(),
        (forall|i: int| 0 <= i < members.len() ==> (#[trigger] members[i]).voter)
            ==> voter_seats_of(members).len() == members.len(),
    decreases members.len(),
{
    if members.len() > 0 {
        let rest = members.drop_last();
        let last = members.last();
        voter_seats_are_the_voters(rest, x);
        let before = voter_seats_of(rest);
        let all = voter_seats_of(members);
        assert(members[members.len() - 1] == last);
        if forall|i: int| 0 <= i < members.len() ==> (#[trigger] members[i]).voter {
            assert forall|i: int| 0 <= i < rest.len() implies (#[trigger] rest[i]).voter by {
                assert(members[i].voter);
            }
        }
        if before.contains(x) {
            let k = choose|k: int| 0 <= k < before.len() && before[k] == x;
            assert(all[k] == x);
            let i = choose|i: int|
                0 <= i < rest.len() && (#[trigger] rest[i]).voter && rest[i].id == x.0
                    && rest[i].addr@ == x.1;
            assert(members[i] == rest[i]);
        }
        if last.voter && last.id == x.0 && last.addr@ == x.1 {
            assert(all[before.len() as int] == x);
        }
        if all.contains(x) && !before.contains(x) {
            let k = choose|k: int| 0 <= k < all.len() && all[k] == x;
            assert(k >= before.len() || before[k] == x);
        }
        if exists|i: int|
            0 <= i < members.len() && (#[trigger] members[i]).voter && members[i].id == x.0
                && members[i].addr@ == x.1 {
            let i = choose|i: int|
                0 <= i < members.len() && (#[trigger] members[i]).voter && members[i].id == x.0
                    && members[i].addr@ == x.1;
            if i < rest.len() {
                assert(rest[i] == members[i]);
            }
        }
    }
}

/// Settled seats are the same seats, ascending.
pub proof fn settled_seats_ascend(seats: Vec<(u64, String)>, i: int, j: int, r: Vec<(u64, String)>)
    requires
        call_ensures(settle, (seats,), r),
        0 <= i <= j < r@.len(),
    ensures
        r@.len() == seats@.len(),
        r@[i].0 <= r@[j].0,
        entries(r@).to_multiset() == entries(seats@).to_multiset(),
{
    settling_sorts(entries(seats@));
    assert(entries(r@).len() == entries(seats@).len());
    assert(entries(r@)[i].0 <= entries(r@)[j].0);
}

} // verus!
