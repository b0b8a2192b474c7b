//! Forwarding a client's write to the leader.

use coppice_coordinator::admin::tokens::Field;
use coppice_coordinator::clientwrite::{
    abort_actor_from_pb, applied_index, authorization_from_pb, authorization_to_pb,
    configure_from_pb, configure_to_pb, forward_deadline, leader_address, rejection_kind_from_pb,
    rejection_kind_to_pb, submit_from_pb, submit_to_pb, under_dial_timeout, under_timeout, Actor,
    ApiError, BindingDto, Called, ConfigureQuotaEntityRequest, ConvertError, Dialled,
    ForwardConfigureQuotaEntityRequest, Outcome, RejectionKind, Resources, RetryPolicy,
    SubmitJobRequest, UpdateAuthorizationRequest, FORWARD_TIMEOUT_SECS,
};
use coppice_coordinator::cluster::{ClusterSummary, MemberSummary};
use coppice_coordinator::time::{Duration, SECOND};

fn history() -> Vec<u8> {
    vec![7; 16]
}

const JOB: u128 = 0x5f0e6e6a_9c2a_4b8e_9a2b_1f4b6c8d9e10;
const ENTITY: u128 = 0x5f0e6e6a_9c2a_4b8e_9a2b_1f4b6c8d9e11;
const PARENT: u128 = 0x5f0e6e6a_9c2a_4b8e_9a2b_1f4b6c8d9e12;

/// A bearer-authenticated actor with groups — the shape whose loss would
/// be silent: an actor missing its groups still authenticates, and simply
/// stops matching every group binding it should have.
fn actor() -> Actor {
    Actor {
        principal: "user-42".to_string(),
        groups: vec!["batch-users".to_string(), "sre".to_string()],
        operator_cert: false,
        auth_disabled: false,
    }
}

fn assert_same_actor(a: &Actor, b: &Actor) {
    assert_eq!(a.principal, b.principal);
    assert_eq!(a.groups, b.groups);
    assert_eq!(a.operator_cert, b.operator_cert);
    assert_eq!(a.auth_disabled, b.auth_disabled);
}

fn submit_request() -> SubmitJobRequest {
    SubmitJobRequest {
        job: JOB,
        image: "busybox:latest".to_string(),
        command: vec!["sh".to_string(), "-c".to_string(), "true".to_string()],
        entrypoint: Some(vec!["/bin/sh".to_string()]),
        requests: Resources { cpu_millis: 1500, memory_bytes: 1 << 30, disk_bytes: 0 },
        priority: -3,
        max_runtime_seconds: Some(3600),
        quota_entity: ENTITY,
        retry: Some(RetryPolicy { max_retries: 2, retry_user_errors: true }),
    }
}

#[test]
fn a_submission_survives_the_hop_field_for_field() {
    // The leader validates what the *client* sent, so every field has to
    // arrive as it left — including the ones this replica already checked.
    // A dropped `max_runtime_seconds` or a transposed resource dimension
    // would run a different job than the one asked for.
    let original = submit_request();
    let wire = submit_to_pb(&history(), &original, &actor());
    assert_eq!(wire.history_id, history());
    let (round_tripped, round_tripped_actor) =
        submit_from_pb(wire).expect("a well-formed request");

    // The actor is part of "what the client sent": the leader stamps
    // `submitted_by` from it and re-checks the bindings against it, so a
    // principal or a group lost on the hop is a different authorization
    // decision, silently.
    assert_same_actor(&round_tripped_actor, &actor());
    assert_eq!(round_tripped.job, original.job);
    assert_eq!(round_tripped.image, original.image);
    assert_eq!(round_tripped.command, original.command);
    assert_eq!(round_tripped.entrypoint, original.entrypoint);
    assert_eq!(round_tripped.requests, original.requests);
    assert_eq!(round_tripped.priority, original.priority);
    assert_eq!(round_tripped.max_runtime_seconds, original.max_runtime_seconds);
    assert_eq!(round_tripped.quota_entity, original.quota_entity);
    let retry = round_tripped.retry.expect("retry policy survives");
    assert_eq!(retry.max_retries, 2);
    assert!(retry.retry_user_errors);
}

#[test]
fn an_absent_entrypoint_stays_absent_and_an_empty_one_stays_empty() {
    // Two distinct meanings — "use the image's entrypoint" and "a
    // malformed override" — and the hop must not collapse them: the
    // second is refused by the *leader's* validation, so it has to get
    // there recognizable.
    let mut req = submit_request();
    req.entrypoint = None;
    let (absent, _) =
        submit_from_pb(submit_to_pb(&history(), &req, &actor())).expect("absent entrypoint");
    assert_eq!(absent.entrypoint, None);

    req.entrypoint = Some(Vec::new());
    let (empty, _) =
        submit_from_pb(submit_to_pb(&history(), &req, &actor())).expect("empty entrypoint");
    assert_eq!(empty.entrypoint, Some(Vec::new()));
}

/// An operator certificate and the open posture are flags on the actor,
/// not a separate credential — and they are the two things that grant
/// implicit unscoped admin. Dropping either on the hop would turn a
/// break-glass abort into a 403; *inventing* either would hand the
/// forwarded write unscoped admin it never had.
#[test]
fn the_implicit_admin_flags_survive_the_hop_in_both_directions() {
    for (operator_cert, auth_disabled) in
        [(false, false), (true, false), (false, true), (true, true)]
    {
        let sent = Actor {
            principal: "cert:alice".to_string(),
            groups: Vec::new(),
            operator_cert,
            auth_disabled,
        };
        let (_, back) = submit_from_pb(submit_to_pb(&history(), &submit_request(), &sent))
            .expect("a well-formed request");
        assert_same_actor(&back, &sent);
    }
}

/// A forwarded write with no actor is malformed, not anonymous.
///
/// The dangerous default: an empty actor is a principal named `""` with no
/// groups and no flags, which is not "the system's own authority" and not "an
/// anonymous caller" — it is a *different* identity that happens to be denied
/// everything, until the day a binding names the empty string. Refusing
/// outright keeps the failure loud.
#[test]
fn a_forwarded_write_with_no_actor_is_refused_rather_than_defaulted() {
    let mut wire = submit_to_pb(&history(), &submit_request(), &actor());
    wire.actor = None;
    assert!(submit_from_pb(wire).is_err());

    let mut wire = ForwardConfigureQuotaEntityRequest {
        history_id: history(),
        entity: Field::Given(ENTITY),
        parent: None,
        name: "platform".to_string(),
        quota_ucu: 1,
        actor: Some(actor()),
    };
    wire.actor = None;
    assert!(configure_from_pb(wire).is_err());

    assert!(abort_actor_from_pb(None).is_err());
    assert_same_actor(&abort_actor_from_pb(Some(actor())).expect("an actor"), &actor());
}

/// The authorization replacement round-trips through one binding on the wire,
/// so both subject kinds and both scope states arrive as themselves.
#[test]
fn an_authorization_replacement_survives_the_hop() {
    let original = UpdateAuthorizationRequest {
        groups_claim: Some("entitlements".to_string()),
        bindings: vec![
            BindingDto {
                group: Some("platform".to_string()),
                principal: None,
                role: "admin".to_string(),
                scope: None,
            },
            BindingDto {
                group: None,
                principal: Some("svc-ci".to_string()),
                role: "submitter".to_string(),
                scope: Some(ENTITY),
            },
        ],
    };
    let wire =
        authorization_to_pb(&history(), &original, &actor()).expect("well-formed bindings");
    let (back, back_actor) = authorization_from_pb(wire).expect("a well-formed replacement");

    assert_same_actor(&back_actor, &actor());
    assert_eq!(back.groups_claim.as_deref(), Some("entitlements"));
    assert_eq!(back.bindings.len(), original.bindings.len());
    for (a, b) in back.bindings.iter().zip(&original.bindings) {
        assert_eq!(a.group, b.group);
        assert_eq!(a.principal, b.principal);
        assert_eq!(a.role, b.role);
        assert_eq!(a.scope, b.scope);
    }
}

/// An absent `groups_claim` stays absent: it means "leave the replicated
/// name alone", and collapsing it into the empty string would rename the
/// claim to nothing on the far side.
#[test]
fn an_absent_groups_claim_stays_absent_across_the_hop() {
    let req = UpdateAuthorizationRequest { groups_claim: None, bindings: Vec::new() };
    let wire = authorization_to_pb(&history(), &req, &actor()).expect("an empty list encodes");
    let (back, _) = authorization_from_pb(wire).expect("a well-formed replacement");
    assert_eq!(back.groups_claim, None);
    // An empty list is a meaningful request — apply's lockout guard is
    // what refuses it — so it must not be confused with "no bindings".
    assert!(back.bindings.is_empty());
}

/// A binding naming both subject kinds has no wire form to become, and the
/// encoder says so rather than silently picking one.
#[test]
fn a_binding_with_two_subjects_is_invalid_before_it_reaches_the_wire() {
    let req = UpdateAuthorizationRequest {
        groups_claim: None,
        bindings: vec![BindingDto {
            group: Some("platform".to_string()),
            principal: Some("svc-ci".to_string()),
            role: "admin".to_string(),
            scope: None,
        }],
    };
    assert!(matches!(
        authorization_to_pb(&history(), &req, &actor()),
        Err(ApiError::Invalid(_))
    ));
}

/// Every classification survives the hop, in both directions, and an
/// unrecognized one degrades to the ordinary 409 rather than to a
/// stricter status this build cannot justify.
#[test]
fn a_rejection_classification_round_trips_and_degrades_safely() {
    for kind in [
        RejectionKind::Other,
        RejectionKind::PermissionDenied,
        RejectionKind::UnknownQuotaEntity,
        RejectionKind::InvalidAuthorization,
        RejectionKind::AuthorizationLockout,
    ] {
        assert_eq!(rejection_kind_from_pb(rejection_kind_to_pb(kind) as i32), kind);
    }
    assert_eq!(rejection_kind_from_pb(9999), RejectionKind::Other);
}

#[test]
fn an_upsert_survives_the_hop_including_a_null_parent() {
    for expected_parent in [None, Some(PARENT)] {
        let req = ConfigureQuotaEntityRequest {
            entity: ENTITY,
            parent: expected_parent,
            name: "platform".to_string(),
            quota_ucu: 12_345,
        };
        let wire = configure_to_pb(&history(), &req, &actor());
        let (back, back_actor) = configure_from_pb(wire).expect("a well-formed upsert");
        assert_same_actor(&back_actor, &actor());
        assert_eq!(back.entity, ENTITY);
        assert_eq!(back.parent, expected_parent);
        assert_eq!(back.name, "platform");
        assert_eq!(back.quota_ucu, 12_345);
    }
}

#[test]
fn a_missing_required_field_is_a_malformed_request_not_a_default() {
    let mut wire = submit_to_pb(&history(), &submit_request(), &actor());
    wire.quota_entity = Field::Absent;
    assert!(submit_from_pb(wire).is_err());
}

#[test]
fn each_unreadable_field_is_named() {
    let sent = || submit_to_pb(&history(), &submit_request(), &actor());
    let missing = |r: Result<(SubmitJobRequest, Actor), ConvertError>| match r {
        Err(ConvertError::MissingField(name)) => name,
        other => panic!("{other:?}"),
    };
    let mut wire = sent();
    wire.actor = None;
    assert_eq!(missing(submit_from_pb(wire)), "ForwardSubmitJobRequest.actor");
    let mut wire = sent();
    wire.requests = Field::Absent;
    assert_eq!(missing(submit_from_pb(wire)), "ForwardSubmitJobRequest.requests");
    let mut wire = sent();
    wire.job = Field::Absent;
    assert_eq!(missing(submit_from_pb(wire)), "ForwardSubmitJobRequest.job");
    let mut wire = sent();
    wire.job = Field::Malformed("13 bytes".to_string());
    assert!(matches!(
        submit_from_pb(wire),
        Err(ConvertError::Malformed(e)) if e == "13 bytes"
    ));
    let mut upsert = configure_to_pb(
        &history(),
        &ConfigureQuotaEntityRequest {
            entity: ENTITY,
            parent: None,
            name: "platform".to_string(),
            quota_ucu: 1,
        },
        &actor(),
    );
    upsert.parent = Some(Err("3 bytes".to_string()));
    assert!(matches!(
        configure_from_pb(upsert),
        Err(ConvertError::Malformed(e)) if e == "3 bytes"
    ));
}

#[test]
fn each_outcome_becomes_the_answer_the_client_would_have_got_from_the_leader() {
    assert_eq!(applied_index(Some(Outcome::Applied { log_index: 91 })).expect("applied"), 91);
    assert!(matches!(
        applied_index(Some(Outcome::Rejected {
            reason: "job 1 is terminal".to_string(),
            kind: rejection_kind_to_pb(RejectionKind::Other) as i32,
        })),
        Err(ApiError::ForwardedRejection { kind: RejectionKind::Other, reason })
            if reason == "job 1 is terminal"
    ));
    // The classification the follower has to see: an apply-time refusal on
    // the leader is a 403 to the client, not the 409 that every other
    // rejection is.
    assert!(matches!(
        applied_index(Some(Outcome::Rejected {
            reason: "permission denied: principal \"u\" may not …".to_string(),
            kind: rejection_kind_to_pb(RejectionKind::PermissionDenied) as i32,
        })),
        Err(ApiError::ForwardedRejection { kind: RejectionKind::PermissionDenied, .. })
    ));
    assert!(matches!(
        applied_index(Some(Outcome::Invalid { message: "bad priority".to_string() })),
        Err(ApiError::Invalid(_))
    ));
    // One hop: the far side is not the leader either, and the client gets
    // the redirect rather than another forward.
    assert!(matches!(
        applied_index(Some(Outcome::NotLeader)),
        Err(ApiError::NotLeader { leader_hint: None })
    ));
    // No outcome at all is not a decision, and must not be reported as
    // one.
    assert!(matches!(applied_index(None), Err(ApiError::Unavailable(_))));
}

fn timeout() -> u128 {
    FORWARD_TIMEOUT_SECS as u128 * SECOND
}

#[test]
fn a_dial_that_never_completes_is_bounded_by_the_forward_budget() {
    // The blackholed leader address: connect neither succeeds nor fails.
    // Without a budget here the client's request outlives the 10s the
    // forwarding path advertises.
    let started = Duration::from_secs(100);
    assert_eq!(forward_deadline(&started).remaining(&started), timeout());
    let error = under_dial_timeout::<()>(Dialled::Elapsed).expect_err("bounded");
    match error {
        ApiError::Unavailable(message) => {
            // Known-not-sent, not outcome-unknown: nothing reached the
            // leader, so the retry advice is unconditional.
            assert!(message.contains("nothing was sent"), "{message}");
            assert!(!message.contains("unknown"), "{message}");
            assert!(message.contains("within the 10s forwarding budget"), "{message}");
        }
        other => panic!("a bounded dial must be retriable, got {other:?}"),
    }
}

#[test]
fn a_dial_that_fails_says_the_write_was_not_sent() {
    // The other half of the same fact, and the reason both arms share one
    // message: a refused connection and an abandoned one are equally
    // "never left this replica".
    let refused = Dialled::<()>::Failed("connection refused".to_string());
    match under_dial_timeout(refused).expect_err("dial failed") {
        ApiError::Unavailable(message) => {
            assert!(message.contains("connection refused"), "{message}");
            assert!(message.contains("nothing was sent"), "{message}");
        }
        other => panic!("a failed dial must be retriable, got {other:?}"),
    }
}

fn assert_lost(error: ApiError) {
    match error {
        ApiError::Unavailable(message) => {
            assert!(message.contains("unknown"), "{message}");
            assert!(!message.contains("nothing was sent"), "{message}");
        }
        other => panic!("a lost call must be retriable, got {other:?}"),
    }
}

#[test]
fn a_lost_call_says_the_outcome_is_unknown_instead() {
    // The distinction the two budgets exist to keep apart: once the
    // request is on the wire, silence is not evidence that it did not
    // commit, so this message must never claim it was not sent.
    assert_lost(under_timeout::<()>(Called::Elapsed).expect_err("bounded"));
}

#[test]
fn a_slow_dial_spends_the_calls_budget_rather_than_adding_to_it() {
    // The advertised budget is 10s *total*. A fresh timeout per stage
    // would let a 9s dial be followed by a further 10s of silence — 19s
    // against a promise of 10 — so the deadline is stamped once and both
    // stages run against it. The dial here eats almost all of it, leaving
    // the call about a second.
    let started = Duration::from_secs(100);
    let deadline = forward_deadline(&started);

    under_dial_timeout(Dialled::Connected(())).expect("the dial finished inside the budget");
    let dialled = Duration::from_secs(109);
    let left = deadline.remaining(&dialled);
    assert_eq!(left, SECOND);

    // The whole operation ends at the one deadline, not at 9s + 10s.
    assert_eq!(dialled.as_nanos() + left - started.as_nanos(), timeout());
    // Still the *sent* message: the dial succeeded, the request went out,
    // and a shared budget must not blur that distinction.
    assert_lost(under_timeout::<()>(Called::Elapsed).expect_err("bounded"));
}

#[test]
fn a_dial_that_burns_the_whole_budget_leaves_the_call_none_of_it() {
    // The boundary of the same rule: with the deadline already spent, the
    // call does not get a fresh one — it fails immediately, and says so
    // in the *outcome-unknown* words, because by then the request is on
    // the wire.
    let started = Duration::from_secs(100);
    let deadline = forward_deadline(&started);
    let spent = Duration::from_secs(100 + FORWARD_TIMEOUT_SECS);
    assert_eq!(deadline.remaining(&spent), 0, "not a second more");
    assert_eq!(deadline.remaining(&Duration::from_secs(1_000)), 0);
    assert!(matches!(under_timeout::<()>(Called::Elapsed), Err(ApiError::Unavailable(_))));
}

#[test]
fn a_refused_call_carries_the_leaders_words() {
    assert!(matches!(
        under_timeout::<()>(Called::Refused("shutting down".to_string())),
        Err(ApiError::Unavailable(m))
            if m == "the leader did not complete the forwarded write: shutting down"
    ));
    assert!(matches!(under_timeout(Called::Answered(3u8)), Ok(3)));
}

#[test]
fn a_leader_without_an_address_cannot_be_forwarded_to() {
    let summary = ClusterSummary {
        local_id: 2,
        leader: Some(1),
        term: 1,
        last_applied: 1,
        known_committed: 1,
        snapshot_last_index: None,
        members: vec![MemberSummary { id: 1, addr: "c1:7071".to_string(), voter: true }],
        replication: vec![],
        millis_since_quorum_ack: None,
    };
    assert_eq!(leader_address(&summary, 1).expect("a member"), "c1:7071");
    assert!(matches!(
        leader_address(&summary, 9),
        Err(ApiError::NotLeader { leader_hint: None })
    ));
}
