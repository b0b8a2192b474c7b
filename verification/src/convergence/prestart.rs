//! The parked half of convergence: enroll, discover, probe, and join what
//! answers. A round that finds nothing simply cycles.

use vstd::prelude::*;
use vstd::string::*;

use crate::cluster::MachineId;
use crate::convergence::leader;
use crate::convergence::leader::Answer;
use crate::text;
use crate::text::decimal_text;
use crate::wire::copy_bytes;

verus! {

/// Whether a round enrolls first: there is somewhere to enroll, and no usable
/// leaf yet.
pub fn enrolls(configured: bool, usable_leaf: bool) -> (r: bool)
    ensures
        r == (configured && !usable_leaf),
{
    configured && !usable_leaf
}

/// The identity an enrollment claims, and whether it has to be persisted
/// first: it is minted once, so a restart presents the same one again.
pub fn claimed_identity(persisted: Option<MachineId>, minted: MachineId) -> (r: (MachineId, bool))
    ensures
        persisted matches Some(m) ==> r == (m, false),
        persisted is None ==> r == (minted, true),
{
    match persisted {
        Some(machine) => (machine, false),
        None => (minted, true),
    }
}

/// Whether the probe plane can be dialled at all: all three TLS files are
/// there.
pub fn leaf_present(cert: bool, key: bool, ca: bool) -> (r: bool)
    ensures
        r == (cert && key && ca),
{
    cert && key && ca
}

/// Whom a round probes, if anyone: the discovered candidates other than this
/// daemon, provided there is material to dial them with.
pub fn round_targets(candidates: &Vec<String>, own: &str, has_leaf: bool) -> (r: Option<
    Vec<String>,
>)
    ensures
        ({
            let others = leader::without_own(text::views(candidates@), own@);
            &&& r is Some <==> others.len() > 0 && has_leaf
            &&& r matches Some(t) ==> text::views(t@) == others
        }),
{
    let targets = leader::seed_targets(candidates, own);
    assert(text::views(targets@).len() == targets@.len());
    if targets.len() == 0 || !has_leaf {
        None
    } else {
        Some(targets)
    }
}

/// The first answer of an initialized cluster of this name, or the count.
pub open spec fn first_cluster(answers: Seq<Answer>, cluster_id: Seq<char>) -> int
    decreases answers.len(),
{
    if answers.len() == 0 || leader::relevant(answers[0].probe, cluster_id) {
        0
    } else {
        1 + first_cluster(answers.subrange(1, answers.len() as int), cluster_id)
    }
}

/// The complaint about a history id that is not sixteen bytes.
pub open spec fn malformed_history(target: Seq<char>, len: nat) -> Seq<char> {
    target + " reports an initialized cluster with a "@ + text::decimal(len)
        + "-byte history id; expected 16 (ADR 0037 §3)"@
}

/// The cluster a round joins: the first initialized one of this name, under
/// the history it reports. Nothing of that kind keeps the daemon parked.
pub fn choose_cluster(answers: &Vec<Answer>, cluster_id: &str) -> (r: Result<
    Option<(String, Vec<u8>)>,
    String,
>)
    ensures
        ({
            let at = first_cluster(answers@, cluster_id@);
            if at >= answers@.len() {
                r == Ok::<Option<(String, Vec<u8>)>, String>(None)
            } else {
                let a = answers@[at];
                if a.probe.history_id@.len() == 16 {
                    r matches Ok(Some((addr, history))) && addr@ == a.addr@ && history@
                        == a.probe.history_id@
                } else {
                    r matches Err(e) && e@ == malformed_history(
                        a.addr@,
                        a.probe.history_id@.len(),
                    )
                }
            }
        }),
{
    let n: usize = answers.len();
    let mut i: usize = 0;
    assert(answers@.subrange(0, n as int) =~= answers@);
    while i < n
        invariant
            n == answers@.len(),
            i <= n,
            first_cluster(answers@, cluster_id@) == i + first_cluster(
                answers@.subrange(i as int, n as int),
                cluster_id@,
            ),
        decreases n - i,
    {
        let ghost rest = answers@.subrange(i as int, n as int);
        assert(rest.subrange(1, rest.len() as int) =~= answers@.subrange(i + 1, n as int));
        let a = &answers[i];
        if a.probe.initialized && text::same(a.probe.cluster_id.as_str(), cluster_id) {
            if a.probe.history_id.len() == 16 {
                return Ok(Some((a.addr.clone(), copy_bytes(&a.probe.history_id))));
            }
            return Err(
                a.addr.clone().concat(" reports an initialized cluster with a ").concat(
                    decimal_text(a.probe.history_id.len() as u64).as_str(),
                ).concat("-byte history id; expected 16 (ADR 0037 §3)"),
            );
        }
        i = i + 1;
    }
    Ok(None)
}

proof fn first_cluster_is_first(answers: Seq<Answer>, cluster_id: Seq<char>)
    ensures
        0 <= first_cluster(answers, cluster_id) <= answers.len(),
        first_cluster(answers, cluster_id) < answers.len() ==> leader::relevant(
            answers[first_cluster(answers, cluster_id)].probe,
            cluster_id,
        ),
        forall|j: int|
            0 <= j < first_cluster(answers, cluster_id) ==> !leader::relevant(
                (#[trigger] answers[j]).probe,
                cluster_id,
            ),
    decreases answers.len(),
{
    if answers.len() > 0 && !leader::relevant(answers[0].probe, cluster_id) {
        let rest = answers.subrange(1, answers.len() as int);
        first_cluster_is_first(rest, cluster_id);
        assert forall|j: int|
            0 <= j < first_cluster(answers, cluster_id) implies !leader::relevant(
            (#[trigger] answers[j]).probe,
            cluster_id,
        ) by {
            if j > 0 {
                assert(rest[j - 1] == answers[j]);
            }
        }
    }
}

/// A round enrolls exactly where it can and needs to.
pub proof fn a_usable_leaf_is_not_replaced(configured: bool, usable_leaf: bool, r: bool)
    requires
        call_ensures(enrolls, (configured, usable_leaf), r),
    ensures
        r <==> configured && !usable_leaf,
{
}

/// A persisted identity is claimed again, and never written again; a minted
/// one is used only where none is persisted, and is persisted first.
pub proof fn an_identity_is_minted_once(
    persisted: Option<MachineId>,
    minted: MachineId,
    r: (MachineId, bool),
)
    requires
        call_ensures(claimed_identity, (persisted, minted), r),
    ensures
        persisted is Some ==> r.0 == persisted->0 && !r.1,
        persisted is None ==> r.0 == minted && r.1,
{
}

/// The plane is dialled only with certificate, key and root all there.
pub proof fn a_leaf_is_three_files(cert: bool, key: bool, ca: bool, r: bool)
    requires
        call_ensures(leaf_present, (cert, key, ca), r),
    ensures
        r <==> cert && key && ca,
{
}

/// A round probes exactly the candidates other than this daemon, and probes
/// only where there is such a candidate and material to dial it with.
pub proof fn a_round_probes_the_others(
    candidates: Vec<String>,
    own: &str,
    has_leaf: bool,
    x: Seq<char>,
    r: Option<Vec<String>>,
)
    requires
        call_ensures(round_targets, (&candidates, own, has_leaf), r),
    ensures
        r matches Some(t) ==> has_leaf && (text::views(t@).contains(x) <==> text::views(
            candidates@,
        ).contains(x) && x != own@),
        r is None ==> !has_leaf || !(text::views(candidates@).contains(x) && x != own@),
{
    leader::filter_keeps(text::views(candidates@), own@, x);
}

/// The cluster that is joined is the first that answered as an initialized one
/// of this name, whatever stands before it; a history that is not sixteen
/// bytes is an error there, and nobody of that name leaves the daemon parked.
pub proof fn the_first_cluster_of_this_name_is_joined(
    answers: Vec<Answer>,
    cluster_id: &str,
    at: int,
    r: Result<Option<(String, Vec<u8>)>, String>,
)
    requires
        call_ensures(choose_cluster, (&answers, cluster_id), r),
    ensures
        r == Ok::<Option<(String, Vec<u8>)>, String>(None) <==> forall|i: int|
            0 <= i < answers@.len() ==> !((#[trigger] answers@[i]).probe.initialized
                && answers@[i].probe.cluster_id@ == cluster_id@),
        0 <= at < answers@.len() && answers@[at].probe.initialized
            && answers@[at].probe.cluster_id@ == cluster_id@ && (forall|i: int|
            0 <= i < at ==> !((#[trigger] answers@[i]).probe.initialized
                && answers@[i].probe.cluster_id@ == cluster_id@))
            && answers@[at].probe.history_id@.len() == 16 ==> (r matches Ok(Some((addr, history)))
            && addr@ == answers@[at].addr@ && history@ == answers@[at].probe.history_id@),
        0 <= at < answers@.len() && answers@[at].probe.initialized
            && answers@[at].probe.cluster_id@ == cluster_id@ && (forall|i: int|
            0 <= i < at ==> !((#[trigger] answers@[i]).probe.initialized
                && answers@[i].probe.cluster_id@ == cluster_id@))
            && answers@[at].probe.history_id@.len() != 16 ==> r is Err,
{
    first_cluster_is_first(answers@, cluster_id@);
    let first = first_cluster(answers@, cluster_id@);
    if first < answers@.len() {
        assert(answers@[first].probe.initialized);
        assert(answers@[first].probe.cluster_id@ == cluster_id@);
        if 0 <= at < answers@.len() && leader::relevant(answers@[at].probe, cluster_id@) {
            assert(first <= at);
        }
    } else {
        assert forall|i: int| 0 <= i < answers@.len() implies !((
        #[trigger] answers@[i]).probe.initialized && answers@[i].probe.cluster_id@
            == cluster_id@) by {
            assert(!leader::relevant(answers@[i].probe, cluster_id@));
        }
    }
}

} // verus!
