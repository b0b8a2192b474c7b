//! Node liveness, and the gating of leader-only work.

use coppice_coordinator::cluster::{NodeId, Role};
use coppice_coordinator::leadership::{until_leadership_lost, wait_for_leadership, Gate};
use coppice_coordinator::liveness::{LivenessMark, NodeLiveness};
use coppice_coordinator::time::Duration;

const A: NodeId = NodeId { id: 0xa };
const B: NodeId = NodeId { id: 0xb };

fn at(secs: u64) -> Duration {
    Duration::from_secs(secs)
}

/// The mark of one node in a snapshot.
fn mark_of(marks: &[(NodeId, LivenessMark)], node: NodeId) -> LivenessMark {
    marks.iter().find(|(n, _)| *n == node).expect("a tracked node").1
}

#[test]
fn mark_and_last_seen_round_trip() {
    let mut liveness = NodeLiveness::new();
    assert!(liveness.last_seen(A).is_none());
    liveness.mark(1, A, at(5), 7);
    assert!(liveness.last_seen(A).is_some());
    assert_eq!(liveness.last_seen(A), Some(at(5)));
}

#[test]
fn seed_grants_grace_to_known_nodes() {
    let mut liveness = NodeLiveness::new();
    let now = at(9);
    liveness.seed(1, &vec![A], now);
    assert_eq!(liveness.last_seen(A), Some(now));
}

#[test]
fn mark_stamps_a_wall_clock_heartbeat() {
    let mut liveness = NodeLiveness::new();
    assert!(liveness.snapshot(1, &at(5)).is_empty());

    liveness.mark(1, A, at(5), 1_700_000_000_000_000);

    let stamp = mark_of(&liveness.snapshot(1, &at(5)), A)
        .last_heartbeat
        .expect("a mark stamps a heartbeat");
    assert_eq!(stamp, 1_700_000_000_000_000);
}

/// A seeded grace window is monitor bookkeeping, not a report: it must
/// never fabricate a heartbeat stamp, and must never erase a real one
/// from the same term.
#[test]
fn seed_neither_fabricates_nor_erases_a_heartbeat() {
    let mut liveness = NodeLiveness::new();
    let (seeded_only, heard) = (B, A);

    liveness.mark(1, heard, at(5), 42);
    let heard_at = mark_of(&liveness.snapshot(1, &at(5)), heard).last_heartbeat;
    assert!(heard_at.is_some());

    liveness.seed(1, &vec![seeded_only, heard], at(6));

    let marks = liveness.snapshot(1, &at(6));
    assert_eq!(mark_of(&marks, seeded_only).last_heartbeat, None);
    assert_eq!(mark_of(&marks, heard).last_heartbeat, heard_at);
    assert_eq!(liveness.last_seen(heard), Some(at(5)));
}

/// Silence is a monotonic span from the node's last report or grant —
/// never wall-clock arithmetic on the heartbeat stamp.
#[test]
fn snapshot_measures_silence_on_the_monotonic_clock() {
    let mut liveness = NodeLiveness::new();
    let base = at(1_000);
    liveness.seed(1, &vec![A], base);

    let later = at(1_100);
    assert_eq!(mark_of(&liveness.snapshot(1, &later), A).silent_for, Duration::from_secs(100));
    // A reader whose instant somehow precedes the grant reads zero, not
    // a panic.
    assert_eq!(
        mark_of(&liveness.snapshot(1, &at(999)), A).silent_for,
        Duration::from_secs(0)
    );
}

/// Step-down: the marks belong to the term they were made in. A replica
/// that no longer leads that term has nothing to serve — not a
/// `healthy` that decays into `lost` as the old marks age.
#[test]
fn a_snapshot_for_another_term_is_empty() {
    let mut liveness = NodeLiveness::new();
    liveness.seed(3, &vec![A], at(1));
    liveness.mark(3, A, at(2), 0);

    assert_eq!(liveness.snapshot(3, &at(3)).len(), 1);
    assert!(liveness.snapshot(2, &at(3)).is_empty());
    assert!(liveness.snapshot(4, &at(3)).is_empty());
}

/// Re-election: seeding a new term starts from the grace grants alone.
/// The prior term's marks and stamps are gone — an old heartbeat must
/// not read as a stale one and cost the node its grace window, and a
/// node the old term knew but the new one does not is not tracked.
#[test]
fn seeding_a_new_term_drops_the_prior_terms_marks() {
    let mut liveness = NodeLiveness::new();
    let (kept, departed) = (A, B);
    liveness.seed(3, &vec![kept, departed], at(400));
    liveness.mark(3, kept, at(401), 1);
    liveness.mark(3, departed, at(402), 2);

    let regained = at(4_000);
    liveness.seed(5, &vec![kept], regained);

    assert_eq!(liveness.last_seen(kept), Some(regained));
    assert_eq!(liveness.last_seen(departed), None);
    let marks = liveness.snapshot(5, &regained);
    assert_eq!(marks.len(), 1);
    assert_eq!(mark_of(&marks, kept).last_heartbeat, None);
    assert_eq!(mark_of(&marks, kept).silent_for, Duration::from_secs(0));
}

/// A report ingested under a leadership this replica has since lost is
/// not evidence for the term it now leads.
#[test]
fn a_mark_for_a_stale_term_is_dropped() {
    let mut liveness = NodeLiveness::new();
    liveness.seed(5, &vec![A], at(1));

    liveness.mark(4, A, at(2), 9);

    assert_eq!(mark_of(&liveness.snapshot(5, &at(3)), A).last_heartbeat, None);
    assert!(liveness.snapshot(4, &at(3)).is_empty());
}

/// Ingestion can observe the new term before housekeeping seeds it. Its
/// mark begins the term (dropping the old one) and survives the seed
/// that follows, which fills in the rest.
#[test]
fn a_mark_ahead_of_the_seed_begins_the_term() {
    let mut liveness = NodeLiveness::new();
    let (early, other) = (A, B);
    liveness.seed(1, &vec![early, other], at(1));
    liveness.mark(1, other, at(2), 1);

    liveness.mark(2, early, at(3), 2);
    let marks = liveness.snapshot(2, &at(4));
    assert_eq!(marks.len(), 1);
    assert!(mark_of(&marks, early).last_heartbeat.is_some());

    liveness.seed(2, &vec![early, other], at(5));
    let marks = liveness.snapshot(2, &at(6));
    assert_eq!(marks.len(), 2);
    assert!(mark_of(&marks, early).last_heartbeat.is_some());
    assert_eq!(mark_of(&marks, other).last_heartbeat, None);
}

#[test]
fn snapshots_ascend_by_node() {
    let mut liveness = NodeLiveness::new();
    for id in [7u128, 3, 9, 1, 7] {
        liveness.mark(1, NodeId { id }, at(id as u64), 0);
    }
    let ids: Vec<u128> = liveness.snapshot(1, &at(10)).iter().map(|(n, _)| n.id).collect();
    assert_eq!(ids, vec![1, 3, 7, 9]);
}

#[test]
fn a_stale_seed_is_dropped() {
    let mut liveness = NodeLiveness::new();
    liveness.mark(5, A, at(1), 1);
    liveness.seed(4, &vec![B], at(2));
    assert_eq!(liveness.last_seen(B), None);
    assert_eq!(liveness.last_seen(A), Some(at(1)));
}

// ---- Leadership -------------------------------------------------------

/// Look at each status in turn until the wait is over.
fn wait_over(statuses: &[(bool, Role)]) -> Option<u64> {
    for (shutdown, role) in statuses {
        match wait_for_leadership(false, *shutdown, *role) {
            Gate::Lead(term) => return Some(term),
            Gate::Stop => return None,
            Gate::Wait => {}
        }
    }
    panic!("still waiting")
}

#[test]
fn wait_for_leadership_wakes_on_role_change() {
    let term = wait_over(&[
        (false, Role::Follower { leader: None }),
        (false, Role::Leader { term: 3 }),
    ])
    .expect("leadership");
    assert_eq!(term, 3);
}

#[test]
fn wait_for_leadership_stops_on_shutdown() {
    let result = wait_over(&[
        (false, Role::Follower { leader: None }),
        (true, Role::Follower { leader: None }),
    ]);
    assert_eq!(result, None);
}

#[test]
fn until_leadership_lost_resolves_on_role_change() {
    assert!(!until_leadership_lost(5, false, false, Role::Leader { term: 5 }));
    assert!(until_leadership_lost(5, false, false, Role::Follower { leader: Some(9) }));
}

#[test]
fn until_leadership_lost_ignores_a_different_term() {
    assert!(!until_leadership_lost(5, false, false, Role::Leader { term: 5 }));
    // Same replica, still leader, but a *newer* term than the one we're
    // watching for still counts as "lost" for the caller's purposes.
    assert!(until_leadership_lost(5, false, false, Role::Leader { term: 6 }));
}

#[test]
fn a_closed_watch_ends_both_waits() {
    assert_eq!(wait_for_leadership(true, false, Role::Leader { term: 1 }), Gate::Stop);
    assert!(until_leadership_lost(1, true, false, Role::Leader { term: 1 }));
    assert!(until_leadership_lost(1, false, true, Role::Leader { term: 1 }));
    assert_eq!(wait_for_leadership(false, false, Role::Unknown), Gate::Wait);
}
