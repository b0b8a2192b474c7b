//! Enrollment and renewal.

use coppice_coordinator::admin::endpoint::{Applied, Rejection};
use coppice_coordinator::cluster::{
    ClusterSummary, ConsensusError, MachineId, MemberSummary, NodeId, Role,
};
use coppice_coordinator::enroll::issue::{
    ca_failure, handle_enroll, on_ca_loaded, on_recorded, on_renewed, on_signed, on_strong_view,
    on_token_verified, refuse_unless_leader, renew_agent, renew_coordinator, verify_enroll_token,
    CaFault, EnrollError, EnrollRequest, EnrollRole, EnrollToken, Enrolled, RevokedIdentity,
    SignedStep, Subject,
};
use coppice_coordinator::enroll::proxy::{
    forward_to_leader, issue, on_issued, refusal, EnrollRefusal, EnrollResponse, Forwarded,
    IssueRoute,
};
use coppice_coordinator::status::Status;

const NOW: i64 = 1_700_000_000_000_000;
const SECOND_US: i64 = 1_000_000;
const NODE: NodeId = NodeId { id: 0xa };
const MACHINE: MachineId = MachineId { id: 0xb };

/// A stand-in for the hash: a marked copy of the secret.
fn hash_secret(secret: &str) -> String {
    format!("hashed:{secret}")
}

fn verify_secret(secret: &str, hash: &str) -> bool {
    hash_secret(secret) == hash
}

fn token(id: u128, secret: &str, role: EnrollRole, now: i64) -> EnrollToken {
    EnrollToken {
        id,
        hash: hash_secret(secret),
        role,
        label: "seeded".to_string(),
        expires_at: None,
        minted_at: now,
        revoked: false,
    }
}

#[test]
fn a_live_token_verifies_to_its_id_and_role() {
    let state = vec![token(7, "s1", EnrollRole::Agent, NOW)];
    let (matched, role) =
        verify_enroll_token(&state, "s1", NOW, verify_secret).expect("the live token matches");
    assert_eq!(matched, 7);
    assert_eq!(role, EnrollRole::Agent);
}

#[test]
fn an_unknown_secret_does_not_verify() {
    let state = vec![token(7, "s1", EnrollRole::Agent, NOW)];
    assert!(verify_enroll_token(&state, "s2", NOW, verify_secret).is_none());
}

#[test]
fn a_revoked_token_does_not_verify() {
    let mut record = token(7, "s1", EnrollRole::Agent, NOW);
    record.revoked = true;
    assert!(
        verify_enroll_token(&vec![record], "s1", NOW, verify_secret).is_none(),
        "a revoked token is indistinguishable from one that never existed"
    );
}

#[test]
fn an_expired_token_does_not_verify() {
    let mut record = token(7, "s1", EnrollRole::Agent, NOW);
    record.expires_at = Some(NOW - SECOND_US);
    assert!(verify_enroll_token(&vec![record], "s1", NOW, verify_secret).is_none());
}

#[test]
fn a_token_expiring_later_still_verifies() {
    let mut record = token(7, "s1", EnrollRole::Coordinator, NOW);
    record.expires_at = Some(NOW + 900 * SECOND_US);
    let (_, role) =
        verify_enroll_token(&vec![record], "s1", NOW, verify_secret).expect("not yet expired");
    assert_eq!(role, EnrollRole::Coordinator);
}

/// The role is *returned*, never used to filter: a coordinator token
/// presented for an agent enrollment verifies here and is refused by the
/// caller's role dispatch, so the two failures are one response.
#[test]
fn the_role_comes_back_for_the_caller_to_judge() {
    let state = vec![token(7, "s1", EnrollRole::Coordinator, NOW)];
    let (_, role) = verify_enroll_token(&state, "s1", NOW, verify_secret).unwrap();
    assert_eq!(role, EnrollRole::Coordinator);
}

/// Every live token is hashed against, whichever one matches — the scan has
/// no early exit, so position carries no timing signal.
#[test]
fn the_last_token_matches_as_readily_as_the_first() {
    let secrets = ["s0", "s1", "s2", "s3"];
    let state: Vec<EnrollToken> = secrets
        .iter()
        .enumerate()
        .map(|(i, s)| token(i as u128, s, EnrollRole::Agent, NOW))
        .collect();
    for (i, secret) in secrets.iter().enumerate() {
        let asked = std::cell::Cell::new(0);
        let found = verify_enroll_token(&state, secret, NOW, |s: &str, h: &str| {
            asked.set(asked.get() + 1);
            verify_secret(s, h)
        });
        assert_eq!(found, Some((i as u128, EnrollRole::Agent)));
        assert_eq!(asked.get(), 4, "every live token is hashed against");
    }
}

/// Signing runs only where a replica believes it leads.
/// Every voter's disk holds the CA key, and the agent branch of
/// `handle_enroll` signs without proposing — so without this table a
/// `ForwardEnroll` landing on a follower would mint agent leaves there.
#[test]
fn only_a_believed_leader_may_sign() {
    assert!(refuse_unless_leader(Role::Leader { term: 3 }).is_ok());

    match refuse_unless_leader(Role::Follower { leader: Some(7) }) {
        Err(EnrollError::NotLeader { leader: Some(7) }) => {}
        other => panic!("a follower must refuse with the hint, got {other:?}"),
    }
    match refuse_unless_leader(Role::Follower { leader: None }) {
        Err(EnrollError::NotLeader { leader: None }) => {}
        other => panic!("a leaderless follower must refuse, got {other:?}"),
    }
    match refuse_unless_leader(Role::Unknown) {
        Err(EnrollError::NotLeader { leader: None }) => {}
        other => panic!("not knowing is not leading, got {other:?}"),
    }
}

fn request(node: Option<NodeId>, machine: Option<MachineId>) -> EnrollRequest {
    EnrollRequest {
        token: "cpk_super_secret_value".into(),
        csr_pem: b"-----BEGIN CERTIFICATE REQUEST-----".to_vec(),
        node_id: node,
        machine_id: machine,
        sans: vec![],
    }
}

#[test]
fn the_request_debug_never_prints_the_token() {
    let rendered = request(None, None).describe();
    assert!(!rendered.contains("cpk_"), "{rendered}");
    assert!(rendered.contains("<redacted>"), "{rendered}");
}

#[test]
fn a_description_quotes_what_it_may_show() {
    let mut req = request(Some(NODE), None);
    req.sans = vec!["a\"b".into(), "c".into()];
    let rendered = req.describe();
    assert!(rendered.contains("csr_pem_len: 35"), "{rendered}");
    assert!(
        rendered.contains("node_id: Some(node-00000000-0000-0000-0000-00000000000a)"),
        "{rendered}"
    );
    assert!(rendered.contains("sans: [\"a\\\"b\", \"c\"]"), "{rendered}");
}

// ---- Issuing -------------------------------------------------------------

#[test]
fn an_unformed_or_following_replica_does_not_begin() {
    assert!(matches!(
        handle_enroll(false, Role::Leader { term: 1 }),
        Err(EnrollError::NotFormed)
    ));
    assert!(matches!(
        handle_enroll(true, Role::Follower { leader: Some(3) }),
        Err(EnrollError::NotLeader { leader: Some(3) })
    ));
    assert!(handle_enroll(true, Role::Leader { term: 1 }).is_ok());
}

#[test]
fn a_token_is_judged_before_the_request() {
    let req = request(Some(NODE), None);
    let mut blank = req.clone();
    blank.csr_pem.clear();
    let none = vec![];
    assert!(matches!(on_token_verified(Ok(None), &blank, &none), Err(EnrollError::Unauthorized)));
    assert!(matches!(
        on_token_verified(Ok(Some((1, EnrollRole::Agent))), &blank, &none),
        Err(EnrollError::BadRequest(m)) if m.contains("no certificate signing request")
    ));
    assert!(matches!(
        on_token_verified(Ok(Some((1, EnrollRole::Agent))), &req, &none),
        Ok(Subject::Agent(NODE))
    ));
    assert!(matches!(
        on_token_verified(Err("joined".into()), &req, &none),
        Err(EnrollError::Internal(m)) if m == "token verification task: joined"
    ));
}

#[test]
fn an_empty_request_tells_nothing_of_role_or_revocation() {
    let mut blank = request(Some(NODE), None);
    blank.csr_pem.clear();
    // A live coordinator token without a machine.
    assert!(matches!(
        on_token_verified(Ok(Some((1, EnrollRole::Coordinator))), &blank, &vec![]),
        Err(EnrollError::Unauthorized)
    ));
    // A live agent token for a revoked node, and one without a node.
    assert!(matches!(
        on_token_verified(
            Ok(Some((1, EnrollRole::Agent))),
            &blank,
            &vec![RevokedIdentity::Node(NODE)]
        ),
        Err(EnrollError::Unauthorized)
    ));
    blank.node_id = None;
    assert!(matches!(
        on_token_verified(Ok(Some((1, EnrollRole::Agent))), &blank, &vec![]),
        Err(EnrollError::Unauthorized)
    ));
}

#[test]
fn the_roles_claim_decides_the_subject() {
    let both = request(Some(NODE), Some(MACHINE));
    assert!(matches!(
        on_token_verified(Ok(Some((1, EnrollRole::Agent))), &both, &vec![]),
        Ok(Subject::Agent(NODE))
    ));
    assert!(matches!(
        on_token_verified(Ok(Some((1, EnrollRole::Coordinator))), &both, &vec![]),
        Ok(Subject::Coordinator(MACHINE))
    ));
    // A missing claim is a token of the wrong role.
    assert!(matches!(
        on_token_verified(
            Ok(Some((1, EnrollRole::Coordinator))),
            &request(Some(NODE), None),
            &vec![]
        ),
        Err(EnrollError::Unauthorized)
    ));
    assert!(matches!(
        on_ca_loaded(Ok(()), Subject::Agent(NODE)),
        Ok(Subject::Agent(NODE))
    ));
    assert!(matches!(
        on_ca_loaded(Err("no key".into()), Subject::Agent(NODE)),
        Err(EnrollError::Internal(m)) if m == "no key"
    ));
}

#[test]
fn a_revoked_identity_neither_enrolls_nor_renews() {
    let revoked = vec![RevokedIdentity::Node(NODE), RevokedIdentity::Machine(MACHINE)];
    let both = request(Some(NODE), Some(MACHINE));
    for role in [EnrollRole::Agent, EnrollRole::Coordinator] {
        assert!(matches!(
            on_token_verified(Ok(Some((1, role))), &both, &revoked),
            Err(EnrollError::Unauthorized)
        ));
    }
    for subject in [Subject::Agent(NODE), Subject::Coordinator(MACHINE)] {
        assert!(matches!(
            on_strong_view(Ok(()), String::new(), subject, &revoked),
            Err(EnrollError::Unauthorized)
        ));
        assert!(on_strong_view(Ok(()), String::new(), subject, &vec![]).is_ok());
    }
    assert!(matches!(renew_agent(NODE, &revoked), Err(EnrollError::Unauthorized)));
    assert!(matches!(renew_agent(NodeId { id: 1 }, &revoked), Ok(Subject::Agent(_))));
}

#[test]
fn only_a_coordinators_enrollment_is_recorded() {
    match on_signed(Subject::Agent(NODE), Ok(b"leaf".to_vec()), b"ca".to_vec()) {
        SignedStep::Reply(Ok(e)) => assert_eq!((e.cert_pem, e.ca_pem), (b"leaf".to_vec(), b"ca".to_vec())),
        other => panic!("{other:?}"),
    }
    match on_signed(Subject::Coordinator(MACHINE), Ok(b"leaf".to_vec()), b"ca".to_vec()) {
        SignedStep::Record { machine, .. } => assert_eq!(machine, MACHINE),
        other => panic!("{other:?}"),
    }
    match on_signed(Subject::Agent(NODE), Err("bad der".into()), vec![]) {
        SignedStep::Reply(Err(EnrollError::BadRequest(m))) => {
            assert_eq!(m, "signing the agent CSR: bad der")
        }
        other => panic!("{other:?}"),
    }
    let issued = || Enrolled { cert_pem: vec![1], ca_pem: vec![2] };
    assert!(on_recorded(issued(), Ok(Applied::At(9)), String::new()).is_ok());
    assert!(matches!(
        on_recorded(
            issued(),
            Ok(Applied::Rejected { kind: Rejection::Other, reason: "full".into() }),
            String::new()
        ),
        Err(EnrollError::Internal(m)) if m == "recording the enrolled identity: full"
    ));
    assert!(matches!(
        on_recorded(issued(), Err(ConsensusError::NotLeader { leader: Some(4) }), "x".into()),
        Err(EnrollError::NotLeader { leader: Some(4) })
    ));
    assert!(matches!(
        on_recorded(issued(), Err(ConsensusError::Timeout), "timed out".into()),
        Err(EnrollError::Internal(m)) if m == "timed out"
    ));
}

#[test]
fn renewal_needs_a_cluster_and_keeps_the_subject() {
    assert!(matches!(renew_coordinator(false), Err(EnrollError::NotFormed)));
    assert!(renew_coordinator(true).is_ok());
    let issued = on_renewed(Subject::Coordinator(MACHINE), Ok(vec![1]), vec![2]).expect("a leaf");
    assert_eq!((issued.cert_pem, issued.ca_pem), (vec![1], vec![2]));
    assert!(matches!(
        on_renewed(Subject::Coordinator(MACHINE), Err("no".into()), vec![]),
        Err(EnrollError::BadRequest(m)) if m == "signing the coordinator CSR: no"
    ));
}

#[test]
fn a_signer_that_cannot_be_loaded_is_explained() {
    for (fault, text) in [
        (CaFault::Unrecorded, "this cluster has no cluster-owned CA recorded (ADR 0037 §4)"),
        (CaFault::Key("e".into()), "loading the cluster CA key: e"),
        (CaFault::Signer("e".into()), "loading the cluster CA: e"),
    ] {
        assert!(matches!(ca_failure(fault), EnrollError::Internal(m) if m == text));
    }
}

// ---- The public endpoint ---------------------------------------------------

fn summary(local_id: u64, leader: Option<u64>) -> ClusterSummary {
    ClusterSummary {
        local_id,
        leader,
        term: 1,
        last_applied: 0,
        known_committed: 0,
        snapshot_last_index: None,
        members: vec![MemberSummary { id: 1, addr: "c1:7071".into(), voter: true }],
        replication: vec![],
        millis_since_quorum_ack: None,
    }
}

#[test]
fn a_request_is_issued_where_the_leader_is() {
    assert!(matches!(issue(&summary(1, Some(1))), IssueRoute::SignHere));
    assert!(matches!(issue(&summary(2, Some(1))), IssueRoute::Forward(a) if a == "c1:7071"));
    assert!(matches!(
        issue(&summary(2, None)),
        IssueRoute::Refuse(EnrollRefusal::Unavailable(m)) if m.contains("election is in progress")
    ));
    assert!(matches!(
        issue(&summary(2, Some(9))),
        IssueRoute::Refuse(EnrollRefusal::Unavailable(m)) if m.contains("(node 9)")
    ));
}

#[test]
fn the_authentication_refusal_stays_opaque() {
    assert!(matches!(refusal(EnrollError::Unauthorized), EnrollRefusal::Unauthorized));
    assert!(matches!(
        forward_to_leader(Forwarded::Refused(Status::unauthenticated("which token".into()))),
        Err(EnrollRefusal::Unauthorized)
    ));
}

#[test]
fn the_leaders_answer_is_passed_on() {
    assert!(matches!(
        forward_to_leader(Forwarded::Refused(Status::invalid_argument("bad csr".into()))),
        Err(EnrollRefusal::BadRequest(m)) if m == "bad csr"
    ));
    assert!(matches!(
        forward_to_leader(Forwarded::Refused(Status::internal("disk".into()))),
        Err(EnrollRefusal::Unavailable(m))
            if m == "the leader refused the proxied enrollment: disk"
    ));
    assert!(matches!(
        forward_to_leader(Forwarded::Unreachable("refused".into())),
        Err(EnrollRefusal::Unavailable(m))
            if m == "could not reach the leader to enroll: refused"
    ));
    assert!(matches!(
        forward_to_leader(Forwarded::TimedOut),
        Err(EnrollRefusal::Unavailable(m)) if m.contains("in time; retry")
    ));
    let resp = EnrollResponse { cert_pem: "c".into(), ca_pem: "a".into() };
    assert!(forward_to_leader(Forwarded::Issued(resp)).is_ok());
}

#[test]
fn issued_material_must_be_text() {
    let ok = on_issued(Ok(Enrolled { cert_pem: b"cert".to_vec(), ca_pem: b"ca".to_vec() }))
        .expect("text");
    assert_eq!((ok.cert_pem.as_str(), ok.ca_pem.as_str()), ("cert", "ca"));
    assert!(matches!(
        on_issued(Ok(Enrolled { cert_pem: vec![0xFF], ca_pem: vec![] })),
        Err(EnrollRefusal::Unavailable(m)) if m == "issued material is not UTF-8"
    ));
    assert!(matches!(
        on_issued(Err(EnrollError::NotLeader { leader: None })),
        Err(EnrollRefusal::Unavailable(m)) if m == "leadership changed while enrolling; retry"
    ));
}
