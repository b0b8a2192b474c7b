//! The guard against forming a cluster twice, and the names this node's leaf
//! serves under.

use vstd::prelude::*;
use vstd::string::*;

use crate::text;
use crate::text::decimal_text;
use crate::wire::ProbeClusterResponse;

verus! {

/// The candidates other than this daemon itself.
pub open spec fn others(candidates: Seq<Seq<char>>, own: Seq<char>) -> Seq<Seq<char>>
    decreases candidates.len(),
{
    if candidates.len() == 0 {
        seq![]
    } else if candidates.last() == own {
        others(candidates.drop_last(), own)
    } else {
        others(candidates.drop_last(), own).push(candidates.last())
    }
}

/// What the guard does after discovery.
#[derive(Debug, Clone)]
pub enum GuardStep {
    /// Nobody to ask: form.
    Clear,
    /// Ask these.
    Ask(Vec<String>),
    Refuse(String),
}

/// The refusal of a daemon that has candidates and no means to ask them.
pub open spec fn blind_refusal(candidates: Seq<Seq<char>>) -> Seq<char> {
    "refusing to form: discovery found "@ + text::decimal(candidates.len()) + " candidate(s) ("@
        + text::joined(candidates, ", "@)
        + ") but this daemon holds no TLS material, so the pre-formation double-init guard "@
        + "cannot ask them whether a cluster already exists (ADR 0037 §3 step 1). If this is "@
        + "genuinely the first formation, run `init` with an empty discovery seed set (or "@
        + "provision [tls] material and re-run); once enrollment lands, a parked daemon "@
        + "acquires a leaf before formation and this guard runs as designed."@
}

/// Whom to ask before forming. The daemon's own address is left out: it can
/// never be the cluster its own formation must not duplicate. A daemon that
/// cannot ask refuses: not being able to probe is not the absence of a
/// cluster.
pub fn refuse_if_cluster_exists(candidates: &Vec<String>, own: &str, have_creds: bool) -> (r:
    GuardStep)
    ensures
        ({
            let rest = others(text::views(candidates@), own@);
            if rest.len() == 0 {
                r is Clear
            } else if !have_creds {
                r matches GuardStep::Refuse(m) && m@ == blind_refusal(rest)
            } else {
                r matches GuardStep::Ask(asked) && text::views(asked@) == rest
            }
        }),
{
    let mut rest: Vec<String> = Vec::new();
    let mut i: usize = 0;
    let ghost all = text::views(candidates@);
    assert(text::views(rest@) =~= others(all.subrange(0, 0), own@));
    while i < candidates.len()
        invariant
            i <= candidates@.len(),
            all == text::views(candidates@),
            text::views(rest@) == others(all.subrange(0, i as int), own@),
        decreases candidates@.len() - i,
    {
        assert(all.subrange(0, i + 1).drop_last() =~= all.subrange(0, i as int));
        if !text::same(candidates[i].as_str(), own) {
            let c = candidates[i].clone();
            assert(text::views(rest@.push(c)) =~= text::views(rest@).push(c@));
            rest.push(c);
        }
        i = i + 1;
    }
    assert(all.subrange(0, candidates@.len() as int) =~= all);
    assert(text::views(rest@).len() == rest@.len());
    if rest.len() == 0 {
        return GuardStep::Clear;
    }
    if !have_creds {
        let n: usize = rest.len();
        return GuardStep::Refuse(
            "refusing to form: discovery found ".to_owned().concat(
                decimal_text(n as u64).as_str(),
            ).concat(" candidate(s) (").concat(text::join(&rest, ", ").as_str()).concat(
                ") but this daemon holds no TLS material, so the pre-formation double-init guard ",
            ).concat(
                "cannot ask them whether a cluster already exists (ADR 0037 §3 step 1). If this is ",
            ).concat(
                "genuinely the first formation, run `init` with an empty discovery seed set (or ",
            ).concat(
                "provision [tls] material and re-run); once enrollment lands, a parked daemon ",
            ).concat("acquires a leaf before formation and this guard runs as designed."),
        );
    }
    GuardStep::Ask(rest)
}

/// Whether an answer names an existing cluster of this name.
pub open spec fn exists_already(answer: ProbeClusterResponse, cluster_id: Seq<char>) -> bool {
    answer.initialized && answer.cluster_id@ == cluster_id
}

/// The first answer that names an existing cluster, or their number.
pub open spec fn first_existing(answers: Seq<(String, ProbeClusterResponse)>, cluster_id: Seq<char>) -> int
    decreases answers.len(),
{
    if answers.len() == 0 || exists_already(answers[0].1, cluster_id) {
        0
    } else {
        1 + first_existing(answers.subrange(1, answers.len() as int), cluster_id)
    }
}

/// The refusal that names the existing cluster.
pub open spec fn existing_refusal(target: Seq<char>, answer: ProbeClusterResponse) -> Seq<char> {
    "refusing to form: "@ + target + " already reports an initialized cluster "@
        + answer.cluster_id@ + " (history "@ + text::hex_of(answer.history_id@)
        + "). Formation happens exactly once per cluster lifetime — this daemon should join "@
        + "the existing cluster, not create a second one (ADR 0037 §3)."@
}

/// The candidates answered, those that could be reached. One that reports an
/// initialized cluster of this name keeps this daemon from forming another.
pub fn on_answers(answers: &Vec<(String, ProbeClusterResponse)>, cluster_id: &str) -> (r: Result<
    (),
    String,
>)
    ensures
        ({
            let at = first_existing(answers@, cluster_id@);
            if at < answers@.len() {
                r matches Err(e) && e@ == existing_refusal(answers@[at].0@, answers@[at].1)
            } else {
                r is Ok
            }
        }),
{
    let n: usize = answers.len();
    let mut i: usize = 0;
    assert(answers@.subrange(0, n as int) =~= answers@);
    while i < n
        invariant
            n == answers@.len(),
            i <= n,
            first_existing(answers@, cluster_id@) == i + first_existing(
                answers@.subrange(i as int, n as int),
                cluster_id@,
            ),
        decreases n - i,
    {
        let ghost rest = answers@.subrange(i as int, n as int);
        assert(rest.subrange(1, rest.len() as int) =~= answers@.subrange(i + 1, n as int));
        let (target, answer) = (&answers[i].0, &answers[i].1);
        if answer.initialized && text::same(answer.cluster_id.as_str(), cluster_id) {
            return Err(
                "refusing to form: ".to_owned().concat(target.as_str()).concat(
                    " already reports an initialized cluster ",
                ).concat(answer.cluster_id.as_str()).concat(" (history ").concat(
                    text::hex(answer.history_id.as_slice()).as_str(),
                ).concat(
                    "). Formation happens exactly once per cluster lifetime — this daemon should join ",
                ).concat("the existing cluster, not create a second one (ADR 0037 §3)."),
            );
        }
        i = i + 1;
    }
    Ok(())
}

/// Formation happens once: whenever any candidate that answered reports an
/// initialized cluster of this name, the guard refuses.
pub proof fn an_existing_cluster_is_never_duplicated(
    answers: Seq<(String, ProbeClusterResponse)>,
    cluster_id: Seq<char>,
    at: int,
)
    requires
        0 <= at < answers.len(),
        exists_already(answers[at].1, cluster_id),
    ensures
        0 <= first_existing(answers, cluster_id) <= at,
        exists_already(answers[first_existing(answers, cluster_id)].1, cluster_id),
    decreases answers.len(),
{
    if !exists_already(answers[0].1, cluster_id) {
        let rest = answers.subrange(1, answers.len() as int);
        assert(rest[at - 1] == answers[at]);
        an_existing_cluster_is_never_duplicated(rest, cluster_id, at - 1);
        let k = first_existing(rest, cluster_id);
        assert(rest[k] == answers[k + 1]);
    }
}

/// A daemon alone in its discovery may form: its own address never counts.
pub proof fn own_address_never_counts(candidates: Seq<Seq<char>>, own: Seq<char>)
    ensures
        !others(candidates, own).contains(own),
    decreases candidates.len(),
{
    if candidates.len() > 0 {
        own_address_never_counts(candidates.drop_last(), own);
        let before = others(candidates.drop_last(), own);
        if candidates.last() != own {
            let after = before.push(candidates.last());
            if after.contains(own) {
                let i = choose|i: int| 0 <= i < after.len() && after[i] == own;
                if i < before.len() {
                    assert(before[i] == own);
                }
            }
        }
    }
}

/// The names a leaf serves under: the advertised host, then the local ones,
/// each once.
pub open spec fn sans_of(host: Option<Seq<char>>) -> Seq<Seq<char>> {
    let local = seq!["localhost"@, "127.0.0.1"@, "::1"@];
    match host {
        None => local,
        Some(h) => seq![h] + others(local, h),
    }
}

/// The names this node's own leaf serves under.
pub fn leaf_sans(host: &Option<String>) -> (r: Vec<String>)
    ensures
        text::views(r@) == sans_of(
            match *host {
                Some(h) => Some(h@),
                None => None,
            },
        ),
{
    let mut sans: Vec<String> = Vec::new();
    let ghost local = seq!["localhost"@, "127.0.0.1"@, "::1"@];
    let extras: Vec<&'static str> = vec!["localhost", "127.0.0.1", "::1"];
    match host {
        None => {
            sans.push("localhost".to_owned());
            sans.push("127.0.0.1".to_owned());
            sans.push("::1".to_owned());
            assert(text::views(sans@) =~= local);
        },
        Some(h) => {
            sans.push(h.clone());
            assert(text::views(sans@) =~= seq![h@] + others(local.subrange(0, 0), h@));
            let mut i: usize = 0;
            while i < extras.len()
                invariant
                    i <= extras@.len(),
                    extras@.len() == 3,
                    local.len() == 3,
                    forall|j: int| 0 <= j < 3 ==> (#[trigger] extras@[j])@ == local[j],
                    text::views(sans@) == seq![h@] + others(local.subrange(0, i as int), h@),
                decreases extras@.len() - i,
            {
                assert(local.subrange(0, i + 1).drop_last() =~= local.subrange(0, i as int));
                assert(extras@[i as int]@ == local[i as int]);
                if !text::same(extras[i], h.as_str()) {
                    let s = extras[i].to_owned();
                    assert(text::views(sans@.push(s)) =~= text::views(sans@).push(s@));
                    assert((seq![h@] + others(local.subrange(0, i as int), h@)).push(s@) =~= seq![
                        h@,
                    ] + others(local.subrange(0, i as int), h@).push(s@));
                    sans.push(s);
                }
                i = i + 1;
            }
            assert(local.subrange(0, 3) =~= local);
        },
    }
    sans
}

// ---------------------------------------------------------------------------
// What the guard decides
// ---------------------------------------------------------------------------

proof fn others_are_all_but_own(candidates: Seq<Seq<char>>, own: Seq<char>, x: Seq<char>)
    ensures
        others(candidates, own).contains(x) <==> candidates.contains(x) && x != own,
        others(candidates, own).len() <= candidates.len(),
    decreases candidates.len(),
{
    if candidates.len() > 0 {
        let rest = candidates.drop_last();
        let last = candidates.last();
        others_are_all_but_own(rest, own, x);
        let before = others(rest, own);
        let all = others(candidates, own);
        assert(candidates[candidates.len() - 1] == last);
        if rest.contains(x) {
            let i = choose|i: int| 0 <= i < rest.len() && rest[i] == x;
            assert(candidates[i] == x);
        }
        if candidates.contains(x) && x != last {
            let i = choose|i: int| 0 <= i < candidates.len() && candidates[i] == x;
            assert(rest[i] == x);
        }
        if last != own {
            assert(all == before.push(last));
            assert(all[before.len() as int] == last);
            if before.contains(x) {
                let i = choose|i: int| 0 <= i < before.len() && before[i] == x;
                assert(all[i] == x);
            }
            if all.contains(x) && x != last {
                let i = choose|i: int| 0 <= i < all.len() && all[i] == x;
                assert(before[i] == x);
            }
        }
    }
}

/// A daemon forms unasked only where discovery names nobody but itself;
/// otherwise it asks everybody else, and refuses where it has no means to.
pub proof fn everybody_else_is_asked_first(
    candidates: Vec<String>,
    own: &str,
    have_creds: bool,
    x: Seq<char>,
    r: GuardStep,
)
    requires
        call_ensures(refuse_if_cluster_exists, (&candidates, own, have_creds), r),
    ensures
        r is Clear <==> forall|i: int|
            0 <= i < candidates@.len() ==> (#[trigger] candidates@[i])@ == own@,
        r is Refuse <==> !have_creds && exists|i: int|
            0 <= i < candidates@.len() && (#[trigger] candidates@[i])@ != own@,
        r matches GuardStep::Ask(asked) ==> (text::views(asked@).contains(x) <==> text::views(
            candidates@,
        ).contains(x) && x != own@),
{
    let all = text::views(candidates@);
    others_are_all_but_own(all, own@, x);
    let rest = others(all, own@);
    if rest.len() > 0 {
        let y = rest[0];
        others_are_all_but_own(all, own@, y);
        assert(rest.contains(y));
        let i = choose|i: int| 0 <= i < all.len() && all[i] == y;
        assert(candidates@[i]@ != own@);
    } else {
        assert forall|i: int| 0 <= i < candidates@.len() implies (#[trigger] candidates@[i])@
            == own@ by {
            others_are_all_but_own(all, own@, all[i]);
            assert(all.contains(all[i]));
        }
    }
}

/// Formation goes on exactly where no answer reports an initialized cluster of
/// this name; a cluster of another name, or one not initialized, is no
/// hindrance.
pub proof fn only_this_cluster_stands_in_the_way(
    answers: Vec<(String, ProbeClusterResponse)>,
    cluster_id: &str,
    r: Result<(), String>,
)
    requires
        call_ensures(on_answers, (&answers, cluster_id), r),
    ensures
        r is Err <==> exists|i: int|
            0 <= i < answers@.len() && (#[trigger] answers@[i]).1.initialized
                && answers@[i].1.cluster_id@ == cluster_id@,
{
    if exists|i: int|
        0 <= i < answers@.len() && (#[trigger] answers@[i]).1.initialized
            && answers@[i].1.cluster_id@ == cluster_id@ {
        let i = choose|i: int|
            0 <= i < answers@.len() && (#[trigger] answers@[i]).1.initialized
                && answers@[i].1.cluster_id@ == cluster_id@;
        an_existing_cluster_is_never_duplicated(answers@, cluster_id@, i);
    } else {
        none_exists(answers@, cluster_id@);
    }
}

proof fn none_exists(answers: Seq<(String, ProbeClusterResponse)>, cluster_id: Seq<char>)
    requires
        forall|i: int|
            0 <= i < answers.len() ==> !((#[trigger] answers[i]).1.initialized
                && answers[i].1.cluster_id@ == cluster_id),
    ensures
        first_existing(answers, cluster_id) == answers.len(),
    decreases answers.len(),
{
    if answers.len() > 0 {
        let rest = answers.subrange(1, answers.len() as int);
        assert forall|i: int| 0 <= i < rest.len() implies !((
        #[trigger] rest[i]).1.initialized && rest[i].1.cluster_id@ == cluster_id) by {
            assert(rest[i] == answers[i + 1]);
        }
        assert(!exists_already(answers[0].1, cluster_id));
        none_exists(rest, cluster_id);
    }
}

/// A leaf serves under the advertised host first, and under every local name,
/// and under no other.
pub proof fn a_leaf_serves_its_host_and_locally(host: Option<String>, x: Seq<char>, r: Vec<String>)
    requires
        call_ensures(leaf_sans, (&host,), r),
    ensures
        host matches Some(h) ==> r@.len() > 0 && r@[0]@ == h@,
        text::views(r@).contains(x) <==> x == "localhost"@ || x == "127.0.0.1"@ || x == "::1"@ || (
        host matches Some(h) && x == h@),
{
    let local = seq!["localhost"@, "127.0.0.1"@, "::1"@];
    assert(local[0] == "localhost"@ && local[1] == "127.0.0.1"@ && local[2] == "::1"@);
    let all = text::views(r@);
    match host {
        None => {},
        Some(h) => {
            others_are_all_but_own(local, h@, x);
            let rest = others(local, h@);
            assert(all == seq![h@] + rest);
            assert(all[0] == h@);
            if rest.contains(x) {
                let i = choose|i: int| 0 <= i < rest.len() && rest[i] == x;
                assert(all[i + 1] == x);
            }
            if all.contains(x) && x != h@ {
                let i = choose|i: int| 0 <= i < all.len() && all[i] == x;
                assert(rest[i - 1] == x);
            }
        },
    }
}

} // verus!
