//! Enrollment: a machine with a role-scoped token and a signing request
//! becomes a machine with a cluster-signed leaf.
//!
//! The token is the whole authentication, so its failure tells nothing: an
//! unknown secret, a revoked token, an expired one, a token of the wrong role
//! and a revoked identity all end in the one refusal without detail.
//! What a request or this replica lacks besides is told only to whoever got
//! past that.

use vstd::prelude::*;
use vstd::string::*;

use crate::admin::endpoint::Applied;
use crate::cluster;
use crate::cluster::{ClusterSummary, ConsensusError, MachineId, NodeId, Role};
use crate::text;
use crate::text::decimal_text;

verus! {

// ---------------------------------------------------------------------------
// Tokens
// ---------------------------------------------------------------------------

/// What an enrollment token grants.
#[derive(Debug, Clone, Copy, PartialEq, Eq, Structural)]
pub enum EnrollRole {
    Agent,
    Coordinator,
}

/// One enrollment token, as replicated. Instants are microseconds since the
/// Unix epoch.
#[derive(Debug, Clone)]
pub struct EnrollToken {
    pub id: u128,
    pub hash: String,
    pub role: EnrollRole,
    pub label: String,
    pub minted_at: i64,
    pub expires_at: Option<i64>,
    pub revoked: bool,
}

impl EnrollToken {
    /// Whether the token still admits anyone at `now`: not revoked, and not
    /// at or past its expiry.
    pub open spec fn lives(self, now: i64) -> bool {
        !self.revoked && (self.expires_at matches Some(at) ==> now < at)
    }

    pub fn is_live(&self, now: i64) -> (r: bool)
        ensures
            r == self.lives(now),
    {
        if self.revoked {
            return false;
        }
        match self.expires_at {
            Some(at) => now < at,
            None => true,
        }
    }
}

/// A verified token: which record matched, and what it grants.
pub type VerifiedToken = (u128, EnrollRole);

/// The last live token whose verdict is favourable.
pub open spec fn last_match(tokens: Seq<EnrollToken>, verdicts: Seq<bool>, now: i64) -> Option<
    VerifiedToken,
>
    recommends
        tokens.len() == verdicts.len(),
    decreases tokens.len(),
{
    if tokens.len() == 0 {
        None
    } else if tokens.last().lives(now) && verdicts[tokens.len() - 1] {
        Some((tokens.last().id, tokens.last().role))
    } else {
        last_match(tokens.drop_last(), verdicts.drop_last(), now)
    }
}

/// Whether `verify` gave this verdict on the presented secret and the token's
/// hash.
pub open spec fn hashed<F: Fn(&str, &str) -> bool>(
    verify: F,
    presented: &str,
    token: EnrollToken,
    verdict: bool,
) -> bool {
    exists|hash: &str|
        hash@ == token.hash@ && #[trigger] verify.ensures((presented, hash), verdict)
}

/// Whether these are verdicts that `verify` gives on the presented secret, one
/// for each live token.
pub open spec fn judged<F: Fn(&str, &str) -> bool>(
    verify: F,
    tokens: Seq<EnrollToken>,
    presented: &str,
    now: i64,
    verdicts: Seq<bool>,
) -> bool {
    &&& verdicts.len() == tokens.len()
    &&& forall|i: int|
        0 <= i < tokens.len() && tokens[i].lives(now) ==> #[trigger] hashed(
            verify,
            presented,
            tokens[i],
            verdicts[i],
        )
}

/// Match `presented` against the live tokens at `now`.
///
/// Every live token is hashed against, with no early return, so the elapsed
/// work does not tell which one matched. `verify_secret` tells whether a
/// secret hashes to a given value. The role comes back for the caller to
/// judge; it is never used to filter.
pub fn verify_enroll_token<F: Fn(&str, &str) -> bool>(
    tokens: &Vec<EnrollToken>,
    presented: &str,
    now: i64,
    verify_secret: F,
) -> (r: Option<VerifiedToken>)
    requires
        forall|hash: &str| verify_secret.requires((presented, hash)),
    ensures
        exists|verdicts: Seq<bool>|
            #![trigger last_match(tokens@, verdicts, now)]
            judged(verify_secret, tokens@, presented, now, verdicts) && r == last_match(
                tokens@,
                verdicts,
                now,
            ),
{
    let mut matched: Option<VerifiedToken> = None;
    let mut i: usize = 0;
    let ghost mut verdicts: Seq<bool> = Seq::empty();
    while i < tokens.len()
        invariant
            i <= tokens@.len(),
            forall|hash: &str| verify_secret.requires((presented, hash)),
            judged(verify_secret, tokens@.subrange(0, i as int), presented, now, verdicts),
            matched == last_match(tokens@.subrange(0, i as int), verdicts, now),
        decreases tokens@.len() - i,
    {
        let ghost before = verdicts;
        let ghost seen = tokens@.subrange(0, i as int);
        assert(tokens@.subrange(0, i + 1).drop_last() =~= seen);
        let mut verdict = false;
        if tokens[i].is_live(now) {
            let hash = tokens[i].hash.as_str();
            verdict = verify_secret(presented, hash);
            assert(hashed(verify_secret, presented, tokens@[i as int], verdict));
            if verdict {
                matched = Some((tokens[i].id, tokens[i].role));
            }
        }
        proof {
            verdicts = before.push(verdict);
            assert(verdicts.drop_last() =~= before);
            let now_seen = tokens@.subrange(0, i + 1);
            assert forall|k: int|
                0 <= k < now_seen.len() && now_seen[k].lives(now) implies #[trigger] hashed(
                verify_secret,
                presented,
                now_seen[k],
                verdicts[k],
            ) by {
                if k < i {
                    assert(hashed(verify_secret, presented, seen[k], before[k]));
                }
            }
        }
        i = i + 1;
    }
    assert(tokens@.subrange(0, tokens@.len() as int) =~= tokens@);
    matched
}

/// A dead token is as one that never existed: wherever it stands and whatever
/// its verdict, the answer is the one without it.
pub proof fn dead_tokens_do_not_exist(
    tokens: Seq<EnrollToken>,
    verdicts: Seq<bool>,
    now: i64,
    at: int,
)
    requires
        tokens.len() == verdicts.len(),
        0 <= at < tokens.len(),
        !tokens[at].lives(now),
    ensures
        last_match(tokens, verdicts, now) == last_match(
            tokens.remove(at),
            verdicts.remove(at),
            now,
        ),
    decreases tokens.len(),
{
    let n = tokens.len() as int;
    if at == n - 1 {
        assert(tokens.remove(at) =~= tokens.drop_last());
        assert(verdicts.remove(at) =~= verdicts.drop_last());
    } else {
        assert(tokens.remove(at).last() == tokens.last());
        assert(tokens.remove(at).drop_last() =~= tokens.drop_last().remove(at));
        assert(verdicts.remove(at).drop_last() =~= verdicts.drop_last().remove(at));
        if !(tokens.last().lives(now) && verdicts[n - 1]) {
            dead_tokens_do_not_exist(tokens.drop_last(), verdicts.drop_last(), now, at);
        }
    }
}

/// A match is some live token with a favourable verdict, and there is one
/// whenever such a token exists: the last matches as readily as the first.
pub proof fn a_match_is_live(tokens: Seq<EnrollToken>, verdicts: Seq<bool>, now: i64)
    requires
        tokens.len() == verdicts.len(),
    ensures
        last_match(tokens, verdicts, now) is Some <==> exists|i: int|
            0 <= i < tokens.len() && (#[trigger] tokens[i]).lives(now) && verdicts[i],
        last_match(tokens, verdicts, now) matches Some(m) ==> exists|i: int|
            0 <= i < tokens.len() && (#[trigger] tokens[i]).lives(now) && verdicts[i] && m == (
                tokens[i].id,
                tokens[i].role,
            ),
    decreases tokens.len(),
{
    if tokens.len() > 0 {
        let n = tokens.len() as int;
        let t = tokens.drop_last();
        let v = verdicts.drop_last();
        a_match_is_live(t, v, now);
        if tokens.last().lives(now) && verdicts[n - 1] {
            assert(tokens[n - 1].lives(now));
        } else {
            if last_match(t, v, now) is Some {
                let m = last_match(t, v, now)->0;
                let i = choose|i: int|
                    0 <= i < t.len() && (#[trigger] t[i]).lives(now) && v[i] && m == (
                        t[i].id,
                        t[i].role,
                    );
                assert(tokens[i] == t[i]);
            }
            assert forall|i: int|
                0 <= i < tokens.len() && (#[trigger] tokens[i]).lives(now)
                    && verdicts[i] implies last_match(t, v, now) is Some by {
                assert(t[i] == tokens[i]);
            }
        }
    }
}

// ---------------------------------------------------------------------------
// Requests and failures
// ---------------------------------------------------------------------------

/// One enrollment request.
#[derive(Clone)]
pub struct EnrollRequest {
    pub token: String,
    pub csr_pem: Vec<u8>,
    /// The node an agent claims to be.
    pub node_id: Option<NodeId>,
    /// The machine a coordinator claims to be.
    pub machine_id: Option<MachineId>,
    /// The names and addresses the enrollee serves on. Metadata, never
    /// identity.
    pub sans: Vec<String>,
}

/// An optional identity, as a request describes it.
pub open spec fn claim_text(label: Option<Seq<char>>) -> Seq<char> {
    match label {
        Some(l) => "Some("@ + l + ")"@,
        None => "None"@,
    }
}

/// Quoted texts between brackets, separated by commas.
pub open spec fn quoted_list(items: Seq<Seq<char>>) -> Seq<char> {
    "["@ + text::joined(items.map_values(|s: Seq<char>| text::debug_quoted(s)), ", "@) + "]"@
}

impl EnrollRequest {
    /// What a request says of itself. The token does not occur in it.
    pub open spec fn described(self) -> Seq<char> {
        "EnrollRequest { token: \"<redacted>\", csr_pem_len: "@ + text::decimal(
            self.csr_pem@.len(),
        ) + ", node_id: "@ + claim_text(
            match self.node_id {
                Some(n) => Some(n.label()),
                None => None,
            },
        ) + ", machine_id: "@ + claim_text(
            match self.machine_id {
                Some(m) => Some(m.label()),
                None => None,
            },
        ) + ", sans: "@ + quoted_list(text::views(self.sans@)) + " }"@
    }

    /// The request as a log may hold it, with the token redacted.
    pub fn describe(&self) -> (r: String)
        ensures
            r@ == self.described(),
    {
        let node = match self.node_id {
            Some(n) => "Some(".to_owned().concat(n.text().as_str()).concat(")"),
            None => "None".to_owned(),
        };
        let machine = match self.machine_id {
            Some(m) => "Some(".to_owned().concat(m.text().as_str()).concat(")"),
            None => "None".to_owned(),
        };
        let mut quoted: Vec<String> = Vec::new();
        let mut i: usize = 0;
        while i < self.sans.len()
            invariant
                i <= self.sans@.len(),
                text::views(quoted@) == text::views(self.sans@).map_values(
                    |s: Seq<char>| text::debug_quoted(s),
                ).subrange(0, i as int),
            decreases self.sans@.len() - i,
        {
            let ghost all = text::views(self.sans@).map_values(
                |s: Seq<char>| text::debug_quoted(s),
            );
            let q = text::quoted(self.sans[i].as_str());
            proof {
                assert(text::views(quoted@.push(q)) =~= text::views(quoted@).push(q@));
                assert(all.subrange(0, i + 1) =~= all.subrange(0, i as int).push(all[i as int]));
            }
            quoted.push(q);
            i = i + 1;
        }
        proof {
            let all = text::views(self.sans@).map_values(|s: Seq<char>| text::debug_quoted(s));
            assert(all.subrange(0, self.sans@.len() as int) =~= all);
        }
        let sans = "[".to_owned().concat(text::join(&quoted, ", ").as_str()).concat("]");
        let len: usize = self.csr_pem.len();
        "EnrollRequest { token: \"<redacted>\", csr_pem_len: ".to_owned().concat(
            decimal_text(len as u64).as_str(),
        ).concat(", node_id: ").concat(node.as_str()).concat(", machine_id: ").concat(
            machine.as_str(),
        ).concat(", sans: ").concat(sans.as_str()).concat(" }")
    }
}

/// The token never leaves the request: two requests that differ in nothing
/// else describe themselves alike.
pub proof fn descriptions_hide_the_token(a: EnrollRequest, b: EnrollRequest)
    requires
        a.csr_pem@.len() == b.csr_pem@.len(),
        a.node_id == b.node_id,
        a.machine_id == b.machine_id,
        a.sans == b.sans,
    ensures
        a.described() == b.described(),
{
}

/// A successful enrollment: the issued leaf, and the bundle that anchors it.
#[derive(Debug, Clone)]
pub struct Enrolled {
    pub cert_pem: Vec<u8>,
    pub ca_pem: Vec<u8>,
}

/// Why an enrollment did not produce a certificate.
#[derive(Debug, Clone)]
pub enum EnrollError {
    /// The single, uniform authentication failure.
    Unauthorized,
    /// The request is malformed.
    BadRequest(String),
    /// This coordinator has not formed a cluster.
    NotFormed,
    /// This replica does not lead.
    NotLeader { leader: Option<u64> },
    /// Anything else.
    Internal(String),
}

impl EnrollError {
    pub open spec fn spelled(self) -> Seq<char> {
        match self {
            EnrollError::Unauthorized => "enrollment token is not valid for this request"@,
            EnrollError::BadRequest(m) => m@,
            EnrollError::NotFormed =>
            "this coordinator has not formed a cluster: enrollment is refused until the "@
                + "formation_complete marker exists (ADR 0037 §3)"@,
            EnrollError::NotLeader { .. } =>
            "not the leader; the leader is where the CA key signs (ADR 0037 §4)"@,
            EnrollError::Internal(m) => m@,
        }
    }

    pub fn text(&self) -> (r: String)
        ensures
            r@ == self.spelled(),
    {
        match self {
            EnrollError::Unauthorized =>
            "enrollment token is not valid for this request".to_owned(),
            EnrollError::BadRequest(m) => m.clone(),
            EnrollError::NotFormed =>
            "this coordinator has not formed a cluster: enrollment is refused until the ".to_owned().concat(
                "formation_complete marker exists (ADR 0037 §3)",
            ),
            EnrollError::NotLeader { .. } =>
            "not the leader; the leader is where the CA key signs (ADR 0037 §4)".to_owned(),
            EnrollError::Internal(m) => m.clone(),
        }
    }

    /// A failure of the consensus seam: leadership keeps its hint, everything
    /// else is `shown`, the failure's own text.
    pub fn of_consensus(err: &ConsensusError, shown: String) -> (r: EnrollError)
        ensures
            r == consensus_failure(*err, shown),
    {
        match err {
            ConsensusError::NotLeader { leader } => EnrollError::NotLeader { leader: *leader },
            _ => EnrollError::Internal(shown),
        }
    }
}

/// What a failure of the consensus seam is to an enrollment.
pub open spec fn consensus_failure(err: ConsensusError, shown: String) -> EnrollError {
    match err {
        ConsensusError::NotLeader { leader } => EnrollError::NotLeader { leader },
        _ => EnrollError::Internal(shown),
    }
}

/// Whether `r` failed with the given internal or bad-request text.
pub open spec fn failed_internally<T>(r: Result<T, EnrollError>, text: Seq<char>) -> bool {
    r matches Err(EnrollError::Internal(m)) && m@ == text
}

pub open spec fn failed_as_malformed<T>(r: Result<T, EnrollError>, text: Seq<char>) -> bool {
    r matches Err(EnrollError::BadRequest(m)) && m@ == text
}

/// Only a replica that currently believes it leads may reach the key. Not
/// knowing is not leading.
pub fn refuse_unless_leader(role: Role) -> (r: Result<(), EnrollError>)
    ensures
        r == (match role {
            Role::Leader { .. } => Ok::<(), EnrollError>(()),
            Role::Follower { leader } => Err(EnrollError::NotLeader { leader }),
            Role::Unknown => Err(EnrollError::NotLeader { leader: None }),
        }),
{
    match role {
        Role::Leader { .. } => Ok(()),
        Role::Follower { leader } => Err(EnrollError::NotLeader { leader }),
        Role::Unknown => Err(EnrollError::NotLeader { leader: None }),
    }
}

// ---------------------------------------------------------------------------
// Issuing
// ---------------------------------------------------------------------------

/// An identity an operator revoked.
#[derive(Debug, Clone, Copy, PartialEq, Eq, Structural)]
pub enum RevokedIdentity {
    Node(NodeId),
    Machine(MachineId),
}

/// Whether this identity was revoked.
pub fn is_identity_revoked(revoked: &Vec<RevokedIdentity>, identity: RevokedIdentity) -> (r: bool)
    ensures
        r == revoked@.contains(identity),
{
    let mut i: usize = 0;
    while i < revoked.len()
        invariant
            i <= revoked@.len(),
            forall|j: int| 0 <= j < i ==> revoked@[j] != identity,
        decreases revoked@.len() - i,
    {
        if revoked[i] == identity {
            return true;
        }
        i = i + 1;
    }
    false
}

/// Begin an enrollment: the cluster must be formed, and this replica must lead.
pub fn handle_enroll(formed: bool, role: Role) -> (r: Result<(), EnrollError>)
    ensures
        !formed ==> r == Err::<(), EnrollError>(EnrollError::NotFormed),
        formed ==> r == (match role {
            Role::Leader { .. } => Ok::<(), EnrollError>(()),
            Role::Follower { leader } => Err(EnrollError::NotLeader { leader }),
            Role::Unknown => Err(EnrollError::NotLeader { leader: None }),
        }),
{
    if !formed {
        return Err(EnrollError::NotFormed);
    }
    refuse_unless_leader(role)
}

/// Whom a leaf is to be signed for.
#[derive(Debug, Clone, Copy, PartialEq, Eq, Structural)]
pub enum Subject {
    Agent(NodeId),
    Coordinator(MachineId),
}

/// The identity a request claims for a role, if it claims one.
pub open spec fn claimed(request: EnrollRequest, role: EnrollRole) -> Option<Subject> {
    match role {
        EnrollRole::Agent => match request.node_id {
            Some(n) => Some(Subject::Agent(n)),
            None => None,
        },
        EnrollRole::Coordinator => match request.machine_id {
            Some(m) => Some(Subject::Coordinator(m)),
            None => None,
        },
    }
}

/// The subject as a revocation names it.
pub open spec fn revocable(subject: Subject) -> RevokedIdentity {
    match subject {
        Subject::Agent(n) => RevokedIdentity::Node(n),
        Subject::Coordinator(m) => RevokedIdentity::Machine(m),
    }
}

/// The identity a request claims for a role, where it claims one that was not
/// revoked.
fn admitted(request: &EnrollRequest, role: EnrollRole, revoked: &Vec<RevokedIdentity>) -> (r:
    Option<Subject>)
    ensures
        r == (if admits(*request, role, revoked@) {
            claimed(*request, role)
        } else {
            None
        }),
{
    let (subject, identity) = match role {
        EnrollRole::Agent => match request.node_id {
            Some(n) => (Subject::Agent(n), RevokedIdentity::Node(n)),
            None => return None,
        },
        EnrollRole::Coordinator => match request.machine_id {
            Some(m) => (Subject::Coordinator(m), RevokedIdentity::Machine(m)),
            None => return None,
        },
    };
    if is_identity_revoked(revoked, identity) {
        None
    } else {
        Some(subject)
    }
}

/// The token was judged; `Err` is a failure of the judging itself. The token's
/// role decides whom the leaf is for. A missing claim is a token of the wrong
/// role, and a revoked identity must not walk back in; both are the uniform
/// refusal, whatever else the request holds. Only then is a request without a
/// signing request refused as malformed, before the key is touched.
pub fn on_token_verified(
    verified: Result<Option<VerifiedToken>, String>,
    request: &EnrollRequest,
    revoked: &Vec<RevokedIdentity>,
) -> (r: Result<Subject, EnrollError>)
    ensures
        match verified {
            Err(e) => failed_internally(r, "token verification task: "@ + e@),
            Ok(None) => r == Err::<Subject, EnrollError>(EnrollError::Unauthorized),
            Ok(Some(m)) => if !admits(*request, m.1, revoked@) {
                r == Err::<Subject, EnrollError>(EnrollError::Unauthorized)
            } else if request.csr_pem@.len() == 0 {
                failed_as_malformed(
                    r,
                    "the enrollment request carries no certificate signing request"@,
                )
            } else {
                r == Ok::<Subject, EnrollError>(claimed(*request, m.1)->0)
            },
        },
{
    let (_, role) = match verified {
        Err(e) => return Err(
            EnrollError::Internal("token verification task: ".to_owned().concat(e.as_str())),
        ),
        Ok(None) => return Err(EnrollError::Unauthorized),
        Ok(Some(m)) => m,
    };
    let subject = match admitted(request, role, revoked) {
        Some(subject) => subject,
        None => return Err(EnrollError::Unauthorized),
    };
    if request.csr_pem.len() == 0 {
        return Err(
            EnrollError::BadRequest(
                "the enrollment request carries no certificate signing request".to_owned(),
            ),
        );
    }
    Ok(subject)
}

/// The cluster's signer was loaded for an admitted subject, or not.
pub fn on_ca_loaded(loaded: Result<(), String>, subject: Subject) -> (r: Result<
    Subject,
    EnrollError,
>)
    ensures
        r == (match loaded {
            Ok(_) => Ok::<Subject, EnrollError>(subject),
            Err(e) => Err(EnrollError::Internal(e)),
        }),
{
    match loaded {
        Ok(_) => Ok(subject),
        Err(e) => Err(EnrollError::Internal(e)),
    }
}

/// What an enrollment does once its leaf was signed.
#[derive(Debug)]
pub enum SignedStep {
    /// The enrollment is over.
    Reply(Result<Enrolled, EnrollError>),
    /// Record the machine as enrolled; then this is the answer.
    Record { machine: MachineId, issued: Enrolled },
}

/// What a failed signature reads as.
pub open spec fn signing_text(subject: Subject, error: Seq<char>) -> Seq<char> {
    match subject {
        Subject::Agent(_) => "signing the agent CSR: "@ + error,
        Subject::Coordinator(_) => "signing the coordinator CSR: "@ + error,
    }
}

fn signing_failure(subject: Subject, error: &str) -> (r: EnrollError)
    ensures
        r matches EnrollError::BadRequest(m) && m@ == signing_text(subject, error@),
{
    match subject {
        Subject::Agent(_) => EnrollError::BadRequest(
            "signing the agent CSR: ".to_owned().concat(error),
        ),
        Subject::Coordinator(_) => EnrollError::BadRequest(
            "signing the coordinator CSR: ".to_owned().concat(error),
        ),
    }
}

/// The leaf was signed, or not. An agent's admission is its registration, so
/// nothing is replicated for it; a coordinator's enrollment is a replicated
/// fact.
pub fn on_signed(subject: Subject, signed: Result<Vec<u8>, String>, ca_pem: Vec<u8>) -> (r:
    SignedStep)
    ensures
        match signed {
            Err(e) => r matches SignedStep::Reply(reply) && failed_as_malformed(
                reply,
                signing_text(subject, e@),
            ),
            Ok(cert_pem) => match subject {
                Subject::Agent(_) => r == SignedStep::Reply(Ok((Enrolled { cert_pem, ca_pem }))),
                Subject::Coordinator(machine) => r == (SignedStep::Record {
                    machine,
                    issued: Enrolled { cert_pem, ca_pem },
                }),
            },
        },
{
    match signed {
        Err(e) => SignedStep::Reply(Err(signing_failure(subject, e.as_str()))),
        Ok(cert_pem) => match subject {
            Subject::Agent(_) => SignedStep::Reply(Ok(Enrolled { cert_pem, ca_pem })),
            Subject::Coordinator(machine) => SignedStep::Record {
                machine,
                issued: Enrolled { cert_pem, ca_pem },
            },
        },
    }
}

/// The enrollment was recorded, or not. `shown` is the text of a failure of
/// the seam.
pub fn on_recorded(
    issued: Enrolled,
    applied: Result<Applied, ConsensusError>,
    shown: String,
) -> (r: Result<Enrolled, EnrollError>)
    ensures
        match applied {
            Err(e) => r == Err::<Enrolled, EnrollError>(consensus_failure(e, shown)),
            Ok(Applied::At(_)) => r == Ok::<Enrolled, EnrollError>(issued),
            Ok(Applied::Rejected { reason, .. }) => failed_internally(
                r,
                "recording the enrolled identity: "@ + reason@,
            ),
        },
{
    match applied {
        Err(e) => Err(EnrollError::of_consensus(&e, shown)),
        Ok(Applied::At(_)) => Ok(issued),
        Ok(Applied::Rejected { reason, .. }) => Err(
            EnrollError::Internal(
                "recording the enrolled identity: ".to_owned().concat(reason.as_str()),
            ),
        ),
    }
}

// ---------------------------------------------------------------------------
// Renewal
// ---------------------------------------------------------------------------

/// Begin to renew a coordinator's leaf. The cluster must be formed; then a
/// read barrier is taken, since refusing renewal is the whole eviction lever.
pub fn renew_coordinator(formed: bool) -> (r: Result<(), EnrollError>)
    ensures
        r == (if formed {
            Ok::<(), EnrollError>(())
        } else {
            Err(EnrollError::NotFormed)
        }),
{
    if formed {
        Ok(())
    } else {
        Err(EnrollError::NotFormed)
    }
}

/// A view at least as fresh as the barrier was read, or not. A revoked
/// identity is refused with the uniform refusal. `shown` is the text of a
/// failure of the seam.
pub fn on_strong_view(
    view: Result<(), ConsensusError>,
    shown: String,
    subject: Subject,
    revoked: &Vec<RevokedIdentity>,
) -> (r: Result<(), EnrollError>)
    ensures
        match view {
            Err(e) => r == Err::<(), EnrollError>(consensus_failure(e, shown)),
            Ok(_) => r == (if renews(subject, revoked@) {
                Ok::<(), EnrollError>(())
            } else {
                Err(EnrollError::Unauthorized)
            }),
        },
{
    if let Err(e) = view {
        return Err(EnrollError::of_consensus(&e, shown));
    }
    let identity = match subject {
        Subject::Agent(n) => RevokedIdentity::Node(n),
        Subject::Coordinator(m) => RevokedIdentity::Machine(m),
    };
    if is_identity_revoked(revoked, identity) {
        Err(EnrollError::Unauthorized)
    } else {
        Ok(())
    }
}

/// Begin to renew an agent's leaf, on a view its session already read. A
/// revoked identity is refused with the uniform refusal.
pub fn renew_agent(node: NodeId, revoked: &Vec<RevokedIdentity>) -> (r: Result<
    Subject,
    EnrollError,
>)
    ensures
        r == (if renews(Subject::Agent(node), revoked@) {
            Ok::<Subject, EnrollError>(Subject::Agent(node))
        } else {
            Err(EnrollError::Unauthorized)
        }),
{
    if is_identity_revoked(revoked, RevokedIdentity::Node(node)) {
        Err(EnrollError::Unauthorized)
    } else {
        Ok(Subject::Agent(node))
    }
}

/// The leaf was signed anew, or not. Renewal preserves the subject and
/// replicates nothing.
pub fn on_renewed(subject: Subject, signed: Result<Vec<u8>, String>, ca_pem: Vec<u8>) -> (r: Result<
    Enrolled,
    EnrollError,
>)
    ensures
        match signed {
            Err(e) => failed_as_malformed(r, signing_text(subject, e@)),
            Ok(cert_pem) => r == Ok::<Enrolled, EnrollError>((Enrolled { cert_pem, ca_pem })),
        },
{
    match signed {
        Err(e) => Err(signing_failure(subject, e.as_str())),
        Ok(cert_pem) => Ok(Enrolled { cert_pem, ca_pem }),
    }
}

/// What kept a signer from being loaded.
#[derive(Debug, Clone)]
pub enum CaFault {
    /// No certificate is recorded in replicated state.
    Unrecorded,
    /// The key on this disk could not be used.
    Key(String),
    /// Certificate and key do not make a signer.
    Signer(String),
}

/// What having no signer reads as to a renewal.
pub fn ca_failure(fault: CaFault) -> (r: EnrollError)
    ensures
        r matches EnrollError::Internal(m) && m@ == (match fault {
            CaFault::Unrecorded =>
            "this cluster has no cluster-owned CA recorded (ADR 0037 §4)"@,
            CaFault::Key(e) => "loading the cluster CA key: "@ + e@,
            CaFault::Signer(e) => "loading the cluster CA: "@ + e@,
        }),
{
    EnrollError::Internal(
        match fault {
            CaFault::Unrecorded =>
            "this cluster has no cluster-owned CA recorded (ADR 0037 §4)".to_owned(),
            CaFault::Key(e) => "loading the cluster CA key: ".to_owned().concat(e.as_str()),
            CaFault::Signer(e) => "loading the cluster CA: ".to_owned().concat(e.as_str()),
        },
    )
}

/// A revoked identity can neither renew nor walk back in through a token: the
/// same revocation that ends one ends the other.
pub proof fn revocation_bars_both_ways(
    request: EnrollRequest,
    role: EnrollRole,
    subject: Subject,
    revoked: Seq<RevokedIdentity>,
)
    requires
        claimed(request, role) == Some(subject),
        revoked.contains(revocable(subject)),
    ensures
        !admits(request, role, revoked),
        !renews(subject, revoked),
{
}

/// Whether an enrollment under `role` gets past authentication.
pub open spec fn admits(request: EnrollRequest, role: EnrollRole, revoked: Seq<RevokedIdentity>) -> bool {
    claimed(request, role) matches Some(s) && !revoked.contains(revocable(s))
}

/// Whether a renewal gets past authentication.
pub open spec fn renews(subject: Subject, revoked: Seq<RevokedIdentity>) -> bool {
    !revoked.contains(revocable(subject))
}

// ---------------------------------------------------------------------------
// What holds of every enrollment
// ---------------------------------------------------------------------------

/// A token lives until it is revoked or its expiry comes, whatever its minting
/// instant: at its expiry it is dead, right before it is not, and one without
/// an expiry lives until revoked.
pub proof fn a_token_dies_at_its_expiry(token: EnrollToken, now: i64, r: bool)
    requires
        call_ensures(EnrollToken::is_live, (&token, now), r),
    ensures
        r == token.lives(now),
        token.revoked ==> !r,
        token.expires_at matches Some(at) && now >= at ==> !r,
        !token.revoked && token.expires_at is None ==> r,
        !token.revoked && (token.expires_at matches Some(at) && now < at) ==> r,
{
}

/// Time only ever takes life from a token: one that lives later lived before.
pub proof fn a_dead_token_stays_dead(token: EnrollToken, earlier: i64, later: i64, a: bool, b: bool)
    requires
        earlier <= later,
        call_ensures(EnrollToken::is_live, (&token, earlier), a),
        call_ensures(EnrollToken::is_live, (&token, later), b),
    ensures
        b ==> a,
{
}

/// A secret opens nothing but a token that it verifies against, that is not
/// revoked and whose expiry has not come; what is opened is that token's id
/// and role. Where every token is revoked or at or past its expiry, nothing
/// opens.
pub proof fn only_a_live_verified_token_opens<F: Fn(&str, &str) -> bool>(
    tokens: Vec<EnrollToken>,
    presented: &str,
    now: i64,
    verify: F,
    r: Option<VerifiedToken>,
)
    requires
        call_ensures(verify_enroll_token::<F>, (&tokens, presented, now, verify), r),
    ensures
        r matches Some(m) ==> exists|i: int|
            0 <= i < tokens@.len() && m == (
                (#[trigger] tokens@[i]).id,
                tokens@[i].role,
            ) && !tokens@[i].revoked && (tokens@[i].expires_at is None || now
                < tokens@[i].expires_at->0) && hashed(verify, presented, tokens@[i], true),
        (forall|i: int|
            0 <= i < tokens@.len() ==> (#[trigger] tokens@[i]).revoked || (tokens@[i].expires_at
                is Some && now >= tokens@[i].expires_at->0)) ==> r is None,
        // Nothing opens only where each token that could was judged and
        // failed.
        r is None ==> forall|i: int|
            0 <= i < tokens@.len() && !(#[trigger] tokens@[i]).revoked && (tokens@[i].expires_at
                is None || now < tokens@[i].expires_at->0) ==> hashed(
                verify,
                presented,
                tokens@[i],
                false,
            ),
{
    let verdicts = choose|verdicts: Seq<bool>|
        #![trigger last_match(tokens@, verdicts, now)]
        judged(verify, tokens@, presented, now, verdicts) && r == last_match(
            tokens@,
            verdicts,
            now,
        );
    a_match_is_live(tokens@, verdicts, now);
    if r is Some {
        let m = r->0;
        let i = choose|i: int|
            0 <= i < tokens@.len() && (#[trigger] tokens@[i]).lives(now) && verdicts[i] && m == (
                tokens@[i].id,
                tokens@[i].role,
            );
        assert(hashed(verify, presented, tokens@[i], verdicts[i]));
    } else {
        assert forall|i: int|
            0 <= i < tokens@.len() && !(#[trigger] tokens@[i]).revoked && (tokens@[i].expires_at
                is None || now < tokens@[i].expires_at->0) implies hashed(
            verify,
            presented,
            tokens@[i],
            false,
        ) by {
            assert(tokens@[i].lives(now));
            assert(hashed(verify, presented, tokens@[i], verdicts[i]));
        }
    }
}

/// Enrollment begins only on a formed cluster's leader.
pub proof fn only_the_leader_of_a_formed_cluster_enrolls(
    formed: bool,
    role: Role,
    r: Result<(), EnrollError>,
    renewing: Result<(), EnrollError>,
)
    requires
        call_ensures(handle_enroll, (formed, role), r),
        call_ensures(renew_coordinator, (formed,), renewing),
    ensures
        r is Ok <==> formed && role is Leader,
        !formed ==> r == Err::<(), EnrollError>(EnrollError::NotFormed),
        formed && !(role is Leader) ==> (r matches Err(EnrollError::NotLeader { leader }) && (
        role matches Role::Follower { leader: known } ==> leader == known)),
        renewing is Ok <==> formed,
{
}

/// Every failure of authentication is the one refusal without detail, whatever
/// else the request holds: no token, no claim for the token's role, a revoked
/// claim. Whoever passes is enrolled as exactly what the role lets them claim.
pub proof fn authentication_fails_without_detail(
    token: Option<VerifiedToken>,
    request: EnrollRequest,
    revoked: Vec<RevokedIdentity>,
    r: Result<Subject, EnrollError>,
)
    requires
        call_ensures(
            on_token_verified,
            (Ok::<Option<VerifiedToken>, String>(token), &request, &revoked),
            r,
        ),
    ensures
        token is None ==> r == Err::<Subject, EnrollError>(EnrollError::Unauthorized),
        token matches Some((_, EnrollRole::Agent)) ==> {
            &&& request.node_id is None ==> r == Err::<Subject, EnrollError>(
                EnrollError::Unauthorized,
            )
            &&& request.node_id matches Some(n) ==> {
                &&& revoked@.contains(RevokedIdentity::Node(n)) ==> r == Err::<
                    Subject,
                    EnrollError,
                >(EnrollError::Unauthorized)
                &&& !revoked@.contains(RevokedIdentity::Node(n)) && request.csr_pem@.len() > 0
                    ==> r == Ok::<Subject, EnrollError>(Subject::Agent(n))
                &&& !revoked@.contains(RevokedIdentity::Node(n)) && request.csr_pem@.len() == 0
                    ==> r matches Err(EnrollError::BadRequest(_))
            }
        },
        token matches Some((_, EnrollRole::Coordinator)) ==> {
            &&& request.machine_id is None ==> r == Err::<Subject, EnrollError>(
                EnrollError::Unauthorized,
            )
            &&& request.machine_id matches Some(m) ==> {
                &&& revoked@.contains(RevokedIdentity::Machine(m)) ==> r == Err::<
                    Subject,
                    EnrollError,
                >(EnrollError::Unauthorized)
                &&& !revoked@.contains(RevokedIdentity::Machine(m)) && request.csr_pem@.len() > 0
                    ==> r == Ok::<Subject, EnrollError>(Subject::Coordinator(m))
                &&& !revoked@.contains(RevokedIdentity::Machine(m)) && request.csr_pem@.len() == 0
                    ==> r matches Err(EnrollError::BadRequest(_))
            }
        },
{
}

/// A leaf is handed out only as it was signed, under the bundle that signed
/// it. An agent's is handed out at once; a coordinator's only once its
/// enrollment was recorded.
pub proof fn a_leaf_is_handed_out_as_signed(
    node: NodeId,
    machine: MachineId,
    signed: Result<Vec<u8>, String>,
    ca_pem: Vec<u8>,
    issued: Enrolled,
    applied: Result<Applied, ConsensusError>,
    shown: String,
    a: SignedStep,
    b: SignedStep,
    c: Result<Enrolled, EnrollError>,
)
    requires
        call_ensures(on_signed, (Subject::Agent(node), signed, ca_pem), a),
        call_ensures(on_signed, (Subject::Coordinator(machine), signed, ca_pem), b),
        call_ensures(on_recorded, (issued, applied, shown), c),
    ensures
        signed matches Ok(cert_pem) ==> a == SignedStep::Reply(Ok((Enrolled { cert_pem, ca_pem })))
            && b == (SignedStep::Record { machine, issued: Enrolled { cert_pem, ca_pem } }),
        signed is Err ==> (a matches SignedStep::Reply(Err(EnrollError::BadRequest(_)))) && (
        b matches SignedStep::Reply(Err(EnrollError::BadRequest(_)))),
        c is Ok <==> (applied matches Ok(Applied::At(_))),
        c matches Ok(out) ==> out == issued,
{
}

/// A revoked identity never renews, and one that was not revoked is never kept
/// from it on that account.
pub proof fn revocation_alone_bars_renewal(
    view: Result<(), ConsensusError>,
    shown: String,
    node: NodeId,
    machine: MachineId,
    revoked: Vec<RevokedIdentity>,
    a: Result<(), EnrollError>,
    b: Result<Subject, EnrollError>,
)
    requires
        call_ensures(on_strong_view, (view, shown, Subject::Coordinator(machine), &revoked), a),
        call_ensures(renew_agent, (node, &revoked), b),
    ensures
        view is Ok ==> (a is Err <==> revoked@.contains(RevokedIdentity::Machine(machine))),
        view is Ok && a is Err ==> a == Err::<(), EnrollError>(EnrollError::Unauthorized),
        view is Err ==> a is Err,
        b is Err <==> revoked@.contains(RevokedIdentity::Node(node)),
        b matches Ok(s) ==> s == Subject::Agent(node),
        b is Err ==> b == Err::<Subject, EnrollError>(EnrollError::Unauthorized),
{
}

/// A verdict counts for a token only if it was given on that token's own hash
/// and on what was presented.
pub proof fn a_verdict_is_on_the_tokens_own_hash<F: Fn(&str, &str) -> bool>(
    verify: F,
    presented: &str,
    token: EnrollToken,
    verdict: bool,
)
    requires
        hashed(verify, presented, token, verdict),
    ensures
        exists|hash: &str|
            hash@ == token.hash@ && #[trigger] verify.ensures((presented, hash), verdict),
{
}

/// Of several tokens that a secret opens, the last counts: what is granted is
/// the id and the role of one after which no live token has a favourable
/// verdict.
pub proof fn the_last_match_counts(tokens: Seq<EnrollToken>, verdicts: Seq<bool>, now: i64) -> (at:
    int)
    requires
        tokens.len() == verdicts.len(),
        last_match(tokens, verdicts, now) is Some,
    ensures
        0 <= at < tokens.len(),
        last_match(tokens, verdicts, now) == Some((tokens[at].id, tokens[at].role)),
        verdicts[at],
        !tokens[at].revoked,
        tokens[at].expires_at is None || now < tokens[at].expires_at->0,
        forall|j: int|
            at < j < tokens.len() && verdicts[j] ==> (#[trigger] tokens[j]).revoked || (
            tokens[j].expires_at is Some && now >= tokens[j].expires_at->0),
    decreases tokens.len(),
{
    let n = tokens.len() - 1;
    if tokens.last().lives(now) && verdicts[n] {
        n
    } else {
        let at = the_last_match_counts(tokens.drop_last(), verdicts.drop_last(), now);
        assert(tokens.drop_last()[at] == tokens[at]);
        assert forall|j: int| at < j < tokens.len() && verdicts[j] implies (
        #[trigger] tokens[j]).revoked || (tokens[j].expires_at is Some && now
            >= tokens[j].expires_at->0) by {
            if j < n {
                assert(tokens.drop_last()[j] == tokens[j]);
                assert(verdicts.drop_last()[j]);
            }
        }
        at
    }
}

/// Renewal asks only whether this very subject was revoked, agent or
/// coordinator alike, and a renewed leaf is handed out as it was signed.
pub proof fn a_renewal_asks_about_its_subject(
    subject: Subject,
    shown: String,
    revoked: Vec<RevokedIdentity>,
    signed: Result<Vec<u8>, String>,
    ca_pem: Vec<u8>,
    a: Result<(), EnrollError>,
    b: Result<Enrolled, EnrollError>,
)
    requires
        call_ensures(
            on_strong_view,
            (Ok::<(), ConsensusError>(()), shown, subject, &revoked),
            a,
        ),
        call_ensures(on_renewed, (subject, signed, ca_pem), b),
    ensures
        subject matches Subject::Agent(n) ==> (a is Err <==> revoked@.contains(
            RevokedIdentity::Node(n),
        )),
        subject matches Subject::Coordinator(m) ==> (a is Err <==> revoked@.contains(
            RevokedIdentity::Machine(m),
        )),
        a is Err ==> a == Err::<(), EnrollError>(EnrollError::Unauthorized),
        signed matches Ok(cert_pem) ==> b == Ok::<Enrolled, EnrollError>(
            (Enrolled { cert_pem, ca_pem }),
        ),
        signed is Err ==> (b matches Err(EnrollError::BadRequest(_))),
{
}

/// A failure of the machinery is never told as a failure of authentication: a
/// seam without its leader names the one it knows, and the rest is internal.
pub proof fn machinery_fails_as_machinery(
    err: ConsensusError,
    shown: String,
    broken: String,
    request: EnrollRequest,
    revoked: Vec<RevokedIdentity>,
    subject: Subject,
    loaded: Result<(), String>,
    fault: CaFault,
    a: EnrollError,
    b: Result<Subject, EnrollError>,
    c: Result<Subject, EnrollError>,
    d: EnrollError,
)
    requires
        call_ensures(EnrollError::of_consensus, (&err, shown), a),
        call_ensures(
            on_token_verified,
            (Err::<Option<VerifiedToken>, String>(broken), &request, &revoked),
            b,
        ),
        call_ensures(on_ca_loaded, (loaded, subject), c),
        call_ensures(ca_failure, (fault,), d),
    ensures
        err matches ConsensusError::NotLeader { leader } ==> a == (EnrollError::NotLeader {
            leader,
        }),
        !(err is NotLeader) ==> a == EnrollError::Internal(shown),
        b matches Err(EnrollError::Internal(_)),
        loaded is Ok ==> c == Ok::<Subject, EnrollError>(subject),
        loaded matches Err(e) ==> c == Err::<Subject, EnrollError>(EnrollError::Internal(e)),
        d is Internal,
{
}

/// An identity is revoked exactly when it is on the list, as that kind of
/// identity.
pub proof fn an_identity_is_revoked_when_listed(
    revoked: Vec<RevokedIdentity>,
    identity: RevokedIdentity,
    r: bool,
)
    requires
        call_ensures(is_identity_revoked, (&revoked, identity), r),
    ensures
        r <==> exists|i: int| 0 <= i < revoked@.len() && (#[trigger] revoked@[i]) == identity,
{
    if revoked@.contains(identity) {
        let i = choose|i: int| 0 <= i < revoked@.len() && revoked@[i] == identity;
        assert(revoked@[i] == identity);
    }
    if exists|i: int| 0 <= i < revoked@.len() && (#[trigger] revoked@[i]) == identity {
        let i = choose|i: int| 0 <= i < revoked@.len() && (#[trigger] revoked@[i]) == identity;
        assert(revoked@.contains(revoked@[i]));
    }
}

} // verus!
