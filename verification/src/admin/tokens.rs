//! The credential verbs: enrollment tokens, revocation, and the renewal of a
//! coordinator's own leaf.

use vstd::prelude::*;
use vstd::string::*;

use crate::admin::authz::{AdminService, Caller, Verb};
use crate::admin::endpoint::Applied;
use crate::admin::refusals;
use crate::admin::refusals::consensus_error_to_status;
use crate::cluster::{ConsensusError, MachineId};
use crate::enroll::issue::{EnrollError, EnrollRole, EnrollToken, Enrolled, RevokedIdentity};
use crate::status;
use crate::status::{Code, Status, StatusView};
use crate::text;

verus! {

// ---------------------------------------------------------------------------
// Minting
// ---------------------------------------------------------------------------

/// A request to mint a token. `role` is the role it names, or what is wrong
/// with the field.
#[derive(Debug)]
pub struct MintEnrollTokenRequest {
    pub history_id: Vec<u8>,
    pub role: Result<EnrollRole, String>,
    pub label: String,
    pub ttl_seconds: Option<u64>,
}

/// What a mint writes besides the hash.
#[derive(Debug, Clone, Copy, PartialEq, Eq, Structural)]
pub struct MintTerms {
    pub role: EnrollRole,
    /// Microseconds since the Unix epoch.
    pub minted_at: i64,
    pub expires_at: Option<i64>,
}

/// The largest instant.
pub const LAST_INSTANT: i64 = 9_223_372_036_854_775_807;

/// Whether a lifetime can be represented, in microseconds.
pub open spec fn representable(secs: u64) -> bool {
    secs * 1_000_000 <= LAST_INSTANT
}

/// The instant a representable lifetime ends, no later than the largest one.
pub open spec fn expiry(minted_at: i64, secs: u64) -> i64 {
    let end = minted_at + secs * 1_000_000;
    if end > LAST_INSTANT {
        LAST_INSTANT
    } else {
        end as i64
    }
}

/// What is wrong with a mint request, if anything.
pub open spec fn mint_complaint(req: MintEnrollTokenRequest) -> Option<StatusView> {
    match req.role {
        Err(e) => Some(status::refusal(Code::InvalidArgument, e@)),
        Ok(_) => if text::blank(req.label@) {
            Some(
                status::refusal(
                    Code::InvalidArgument,
                    "an enrollment token needs a non-empty label: it is what `enroll-token list` "@
                        + "and `[[enroll_token]]` seeding identify it by"@,
                ),
            )
        } else if req.ttl_seconds is Some && !representable(req.ttl_seconds->0) {
            Some(
                status::refusal(
                    Code::InvalidArgument,
                    "ttl_seconds is outside the representable range"@,
                ),
            )
        } else {
            None
        },
    }
}

impl AdminService {
    /// Begin to mint an enrollment token. Operators only: a coordinator token
    /// is root-equivalent.
    pub fn mint_enroll_token(
        &self,
        caller: &Caller,
        req: &MintEnrollTokenRequest,
        now: i64,
    ) -> (r: Result<MintTerms, Status>)
        ensures
            match self.barred(Verb::MintEnrollToken, *caller, req.history_id@) {
                Some(s) => status::refused_as(r, s),
                None => match mint_complaint(*req) {
                    Some(s) => status::refused_as(r, s),
                    None => r == Ok::<MintTerms, Status>(
                        (MintTerms {
                            role: req.role->Ok_0,
                            minted_at: now,
                            expires_at: match req.ttl_seconds {
                                Some(secs) => Some(expiry(now, secs)),
                                None => None,
                            },
                        }),
                    ),
                },
            },
    {
        if let Err(e) = self.gate(Verb::MintEnrollToken, caller, &req.history_id) {
            return Err(e);
        }
        let role = match &req.role {
            Ok(role) => *role,
            Err(e) => return Err(Status::invalid_argument(e.clone())),
        };
        proof {
            text::trimmed_empty_iff_blank(req.label@);
        }
        if text::trim(req.label.as_str()).is_empty() {
            return Err(
                Status::invalid_argument(
                    "an enrollment token needs a non-empty label: it is what `enroll-token list` ".to_owned().concat(
                        "and `[[enroll_token]]` seeding identify it by",
                    ),
                ),
            );
        }
        let expires_at = match req.ttl_seconds {
            None => None,
            Some(secs) => {
                if secs > 9_223_372_036_854 {
                    return Err(
                        Status::invalid_argument(
                            "ttl_seconds is outside the representable range".to_owned(),
                        ),
                    );
                }
                let end: i128 = now as i128 + secs as i128 * 1_000_000;
                if end > LAST_INSTANT as i128 {
                    Some(LAST_INSTANT)
                } else {
                    Some(end as i64)
                }
            },
        };
        Ok(MintTerms { role, minted_at: now, expires_at })
    }
}

/// A minted token never expires before it was minted, however long it lives.
pub proof fn a_lifetime_never_runs_backwards(minted_at: i64, secs: u64)
    requires
        representable(secs),
    ensures
        minted_at <= expiry(minted_at, secs),
{
}

/// What became of the hashing of a fresh secret.
#[derive(Debug, Clone)]
pub enum Hashing {
    /// The worker failed.
    TaskFailed(String),
    /// The secret could not be hashed.
    HashFailed(String),
    Done,
}

/// The secret was hashed, or not.
pub fn on_secret_hashed(outcome: Hashing) -> (r: Result<(), Status>)
    ensures
        match outcome {
            Hashing::TaskFailed(e) => status::refused_as(
                r,
                status::refusal(Code::Internal, "token hashing task: "@ + e@),
            ),
            Hashing::HashFailed(e) => status::refused_as(
                r,
                status::refusal(Code::Internal, "hashing the token secret: "@ + e@),
            ),
            Hashing::Done => r is Ok,
        },
{
    match outcome {
        Hashing::TaskFailed(e) => Err(
            Status::internal("token hashing task: ".to_owned().concat(e.as_str())),
        ),
        Hashing::HashFailed(e) => Err(
            Status::internal("hashing the token secret: ".to_owned().concat(e.as_str())),
        ),
        Hashing::Done => Ok(()),
    }
}

/// A credential command was proposed under `label`: the log index to wait for,
/// or the refusal. What the verb wrote must be visible here before it answers.
fn applied_at(label: &str, applied: Result<Applied, ConsensusError>) -> (r: Result<u64, Status>)
    ensures
        match applied {
            Err(e) => status::refused_as(r, refusals::consensus_refusal(e)),
            Ok(Applied::At(i)) => r == Ok::<u64, Status>(i),
            Ok(Applied::Rejected { reason, .. }) => status::refused_as(
                r,
                status::refusal(Code::FailedPrecondition, label@ + reason@),
            ),
        },
{
    match applied {
        Err(e) => Err(consensus_error_to_status(&e)),
        Ok(Applied::At(i)) => Ok(i),
        Ok(Applied::Rejected { reason, .. }) => Err(
            Status::failed_precondition(label.to_owned().concat(reason.as_str())),
        ),
    }
}

/// The token was proposed.
pub fn on_minted(applied: Result<Applied, ConsensusError>) -> (r: Result<u64, Status>)
    ensures
        match applied {
            Err(e) => status::refused_as(r, refusals::consensus_refusal(e)),
            Ok(Applied::At(i)) => r == Ok::<u64, Status>(i),
            Ok(Applied::Rejected { reason, .. }) => status::refused_as(
                r,
                status::refusal(Code::FailedPrecondition, "mint rejected: "@ + reason@),
            ),
        },
{
    applied_at("mint rejected: ", applied)
}

// ---------------------------------------------------------------------------
// Listing
// ---------------------------------------------------------------------------

/// One token in an operator's inventory. It carries no hash: this is an
/// inventory, not a credential export.
#[derive(Debug, Clone)]
pub struct EnrollTokenSummary {
    pub token_id: u128,
    pub role: EnrollRole,
    pub label: String,
    pub minted_at_us: i64,
    pub expires_at_us: Option<i64>,
    pub revoked: bool,
}

/// Whether `s` is the inventory line of `t`.
pub open spec fn summarizes(s: EnrollTokenSummary, t: EnrollToken) -> bool {
    &&& s.token_id == t.id
    &&& s.role == t.role
    &&& s.label@ == t.label@
    &&& s.minted_at_us == t.minted_at
    &&& s.expires_at_us == t.expires_at
    &&& s.revoked == t.revoked
}

impl AdminService {
    /// List the tokens of the published view, in its order. Operators only.
    pub fn list_enroll_tokens(
        &self,
        caller: &Caller,
        history: &Vec<u8>,
        tokens: &Vec<EnrollToken>,
    ) -> (r: Result<Vec<EnrollTokenSummary>, Status>)
        ensures
            match self.barred(Verb::ListEnrollTokens, *caller, history@) {
                Some(s) => status::refused_as(r, s),
                None => r matches Ok(list) && list@.len() == tokens@.len() && forall|i: int|
                    0 <= i < list@.len() ==> summarizes(#[trigger] list@[i], tokens@[i]),
            },
    {
        if let Err(e) = self.gate(Verb::ListEnrollTokens, caller, history) {
            return Err(e);
        }
        let mut list: Vec<EnrollTokenSummary> = Vec::new();
        let mut i: usize = 0;
        while i < tokens.len()
            invariant
                i <= tokens@.len(),
                list@.len() == i,
                forall|j: int| 0 <= j < i ==> summarizes(#[trigger] list@[j], tokens@[j]),
            decreases tokens@.len() - i,
        {
            let t = &tokens[i];
            list.push(
                EnrollTokenSummary {
                    token_id: t.id,
                    role: t.role,
                    label: t.label.clone(),
                    minted_at_us: t.minted_at,
                    expires_at_us: t.expires_at,
                    revoked: t.revoked,
                },
            );
            i = i + 1;
        }
        Ok(list)
    }
}

// ---------------------------------------------------------------------------
// Revocation
// ---------------------------------------------------------------------------

/// A field a request must carry: absent, malformed, or its value.
#[derive(Debug, Clone)]
pub enum Field<T> {
    Absent,
    Malformed(String),
    Given(T),
}

/// What is wrong with a required field, if anything.
pub open spec fn field_complaint<T>(field: Field<T>, name: Seq<char>) -> Option<StatusView> {
    match field {
        Field::Absent => Some(status::refusal(Code::InvalidArgument, name)),
        Field::Malformed(e) => Some(status::refusal(Code::InvalidArgument, e@)),
        Field::Given(_) => None,
    }
}

impl AdminService {
    /// Begin to revoke an enrollment token: the token to revoke. Future
    /// enrollments stop, issued leaves are untouched. Operators only.
    pub fn revoke_enroll_token(&self, caller: &Caller, history: &Vec<u8>, token: Field<u128>) -> (r:
        Result<u128, Status>)
        ensures
            match self.barred(Verb::RevokeEnrollToken, *caller, history@) {
                Some(s) => status::refused_as(r, s),
                None => match field_complaint(token, "RevokeEnrollTokenRequest.token_id"@) {
                    Some(s) => status::refused_as(r, s),
                    None => r == Ok::<u128, Status>(token->Given_0),
                },
            },
    {
        if let Err(e) = self.gate(Verb::RevokeEnrollToken, caller, history) {
            return Err(e);
        }
        match token {
            Field::Absent => Err(
                Status::invalid_argument("RevokeEnrollTokenRequest.token_id".to_owned()),
            ),
            Field::Malformed(e) => Err(Status::invalid_argument(e)),
            Field::Given(token) => Ok(token),
        }
    }

    /// Begin to revoke an identity: whom to revoke. Its renewals are refused
    /// from then on. Operators only.
    pub fn revoke_identity(
        &self,
        caller: &Caller,
        history: &Vec<u8>,
        identity: Field<RevokedIdentity>,
    ) -> (r: Result<RevokedIdentity, Status>)
        ensures
            match self.barred(Verb::RevokeIdentity, *caller, history@) {
                Some(s) => status::refused_as(r, s),
                None => match field_complaint(identity, "RevokeIdentityRequest.identity"@) {
                    Some(s) => status::refused_as(r, s),
                    None => r == Ok::<RevokedIdentity, Status>(identity->Given_0),
                },
            },
    {
        if let Err(e) = self.gate(Verb::RevokeIdentity, caller, history) {
            return Err(e);
        }
        match identity {
            Field::Absent => Err(
                Status::invalid_argument("RevokeIdentityRequest.identity".to_owned()),
            ),
            Field::Malformed(e) => Err(Status::invalid_argument(e)),
            Field::Given(identity) => Ok(identity),
        }
    }
}

/// The revocation of a token was proposed.
pub fn on_token_revoked(applied: Result<Applied, ConsensusError>) -> (r: Result<u64, Status>)
    ensures
        match applied {
            Err(e) => status::refused_as(r, refusals::consensus_refusal(e)),
            Ok(Applied::At(i)) => r == Ok::<u64, Status>(i),
            Ok(Applied::Rejected { reason, .. }) => status::refused_as(
                r,
                status::refusal(Code::FailedPrecondition, "revoke rejected: "@ + reason@),
            ),
        },
{
    applied_at("revoke rejected: ", applied)
}

/// The revocation of an identity was proposed.
pub fn on_identity_revoked(applied: Result<Applied, ConsensusError>) -> (r: Result<u64, Status>)
    ensures
        match applied {
            Err(e) => status::refused_as(r, refusals::consensus_refusal(e)),
            Ok(Applied::At(i)) => r == Ok::<u64, Status>(i),
            Ok(Applied::Rejected { reason, .. }) => status::refused_as(
                r,
                status::refusal(
                    Code::FailedPrecondition,
                    "identity revocation rejected: "@ + reason@,
                ),
            ),
        },
{
    applied_at("identity revocation rejected: ", applied)
}

// ---------------------------------------------------------------------------
// Forwarded enrollment, and renewal
// ---------------------------------------------------------------------------

/// An optional field of a forwarded request: its value, or what is wrong with
/// it.
pub open spec fn optional_complaint<T>(field: Option<Result<T, String>>) -> Option<StatusView> {
    match field {
        Some(Err(e)) => Some(status::refusal(Code::InvalidArgument, e@)),
        _ => None,
    }
}

fn optional_field<T>(field: Option<Result<T, String>>) -> (r: Result<Option<T>, Status>)
    ensures
        match optional_complaint(field) {
            Some(s) => status::refused_as(r, s),
            None => r == Ok::<Option<T>, Status>(
                match field {
                    Some(Ok(v)) => Some(v),
                    _ => None,
                },
            ),
        },
{
    match field {
        None => Ok(None),
        Some(Ok(v)) => Ok(Some(v)),
        Some(Err(e)) => Err(Status::invalid_argument(e)),
    }
}

/// Whom a forwarded request claims to be, as the node and as the machine.
pub type Claims = (Option<crate::cluster::NodeId>, Option<MachineId>);

impl AdminService {
    /// Begin the leader's half of an enrollment a follower passed on. The
    /// token in the request authorizes the enrollment, not the caller.
    pub fn forward_enroll(
        &self,
        caller: &Caller,
        history: &Vec<u8>,
        node: Option<Result<crate::cluster::NodeId, String>>,
        machine: Option<Result<MachineId, String>>,
    ) -> (r: Result<Claims, Status>)
        ensures
            match self.barred(Verb::ForwardEnroll, *caller, history@) {
                Some(s) => status::refused_as(r, s),
                None => match (optional_complaint(node), optional_complaint(machine)) {
                    (Some(s), _) => status::refused_as(r, s),
                    (None, Some(s)) => status::refused_as(r, s),
                    (None, None) => r matches Ok(c) && c.0 == (match node {
                        Some(Ok(n)) => Some(n),
                        _ => None,
                    }) && c.1 == (match machine {
                        Some(Ok(m)) => Some(m),
                        _ => None,
                    }),
                },
            },
    {
        if let Err(e) = self.gate(Verb::ForwardEnroll, caller, history) {
            return Err(e);
        }
        let node = match optional_field(node) {
            Ok(n) => n,
            Err(e) => return Err(e),
        };
        match optional_field(machine) {
            Ok(machine) => Ok((node, machine)),
            Err(e) => Err(e),
        }
    }

    /// Begin to renew the caller's own leaf: the machine its session proves.
    /// The identity is never read from the request, so renewal cannot change
    /// it.
    pub fn renew_coordinator(&self, caller: &Caller, history: &Vec<u8>) -> (r: Result<
        MachineId,
        Status,
    >)
        ensures
            match self.barred(Verb::RenewCoordinator, *caller, history@) {
                Some(s) => status::refused_as(r, s),
                None => *caller matches Caller::Machine(m) && r == Ok::<MachineId, Status>(m),
            },
    {
        if let Err(e) = self.gate(Verb::RenewCoordinator, caller, history) {
            return Err(e);
        }
        match caller {
            Caller::Machine(machine) => Ok(*machine),
            _ => Err(crate::admin::authz::deny(Verb::RenewCoordinator.name(), caller)),
        }
    }
}

/// How a failure of the enrollment core reads on the wire.
pub open spec fn enroll_refusal(err: EnrollError) -> StatusView {
    match err {
        EnrollError::Unauthorized => status::refusal(
            Code::Unauthenticated,
            "enrollment refused"@,
        ),
        EnrollError::BadRequest(m) => status::refusal(Code::InvalidArgument, m@),
        EnrollError::NotFormed => status::refusal(Code::FailedPrecondition, err.spelled()),
        EnrollError::NotLeader { leader } => status::refusal(
            Code::FailedPrecondition,
            refusals::not_leader_text(leader),
        ),
        EnrollError::Internal(m) => status::refusal(Code::Internal, m@),
    }
}

/// How a failure of the enrollment core reads on the wire. Nothing is added to
/// the authentication failure.
pub fn enroll_error_to_status(err: EnrollError) -> (r: Status)
    ensures
        r@ == enroll_refusal(err),
{
    match err {
        EnrollError::Unauthorized => Status::unauthenticated("enrollment refused".to_owned()),
        EnrollError::BadRequest(m) => Status::invalid_argument(m),
        EnrollError::NotFormed => Status::failed_precondition(EnrollError::NotFormed.text()),
        EnrollError::NotLeader { leader } => Status::failed_precondition(
            refusals::not_leader_message(leader),
        ),
        EnrollError::Internal(m) => Status::internal(m),
    }
}

/// Passing an enrollment on tells no more of the token than signing here: of
/// all failures of the core the authentication failure alone comes back
/// unauthenticated, and malformed requests alone come back as such.
pub proof fn the_wire_tells_failures_apart(err: EnrollError)
    ensures
        enroll_refusal(err).code == Code::Unauthenticated <==> err is Unauthorized,
        enroll_refusal(err).code == Code::InvalidArgument <==> err is BadRequest,
{
}

/// Issued material as text.
pub fn pem_string(pem: Vec<u8>) -> (r: Result<String, Status>)
    ensures
        if vstd::utf8::valid_utf8(pem@) {
            r matches Ok(s) && s@ == vstd::utf8::decode_utf8(pem@)
        } else {
            status::refused_as(
                r,
                status::refusal(Code::Internal, "issued material is not UTF-8"@),
            )
        },
{
    match text::decoded(pem) {
        Ok(s) => Ok(s),
        Err(_) => Err(Status::internal("issued material is not UTF-8".to_owned())),
    }
}

/// What the core issued for a forwarded enrollment or a renewal: the leaf and
/// the bundle, as text.
pub fn on_issued(issued: Result<Enrolled, EnrollError>) -> (r: Result<(String, String), Status>)
    ensures
        match issued {
            Err(e) => status::refused_as(r, enroll_refusal(e)),
            Ok(e) => if vstd::utf8::valid_utf8(e.cert_pem@) && vstd::utf8::valid_utf8(e.ca_pem@) {
                r matches Ok(p) && p.0@ == vstd::utf8::decode_utf8(e.cert_pem@) && p.1@
                    == vstd::utf8::decode_utf8(e.ca_pem@)
            } else {
                status::refused_as(
                    r,
                    status::refusal(Code::Internal, "issued material is not UTF-8"@),
                )
            },
        },
{
    let issued = match issued {
        Err(e) => return Err(enroll_error_to_status(e)),
        Ok(issued) => issued,
    };
    let cert = match pem_string(issued.cert_pem) {
        Err(e) => return Err(e),
        Ok(s) => s,
    };
    match pem_string(issued.ca_pem) {
        Err(e) => Err(e),
        Ok(ca) => Ok((cert, ca)),
    }
}

// ---------------------------------------------------------------------------
// What the credential verbs answer
// ---------------------------------------------------------------------------

/// A token is minted for an operator alone, under a label that is not blank,
/// with a role that was read and a lifetime that fits; it then carries that
/// role, is minted now, and expires that many seconds later, or never.
pub proof fn a_token_is_minted_as_asked(
    service: AdminService,
    seam: crate::admin::authz::Seam,
    caller: Caller,
    req: MintEnrollTokenRequest,
    now: i64,
    r: Result<MintTerms, Status>,
)
    requires
        call_ensures(AdminService::mint_enroll_token, (&service, &caller, &req, now), r),
        service.seam == Some(seam),
        req.history_id@ == seam.history_id@,
        req.history_id@.len() == 16,
    ensures
        r is Ok <==> caller is Operator && req.role is Ok && (exists|i: int|
            0 <= i < req.label@.len() && !text::white(#[trigger] req.label@[i])) && (
        req.ttl_seconds is None || req.ttl_seconds->0 <= 9_223_372_036_854),
        r matches Ok(terms) ==> terms.role == req.role->Ok_0 && terms.minted_at == now && (
        terms.expires_at is Some <==> req.ttl_seconds is Some),
        r is Ok && req.ttl_seconds is Some && now + req.ttl_seconds->0 * 1_000_000
            <= 9_223_372_036_854_775_807 ==> r->Ok_0.expires_at == Some(
            (now + req.ttl_seconds->0 * 1_000_000) as i64,
        ),
        r is Ok && req.ttl_seconds is Some && now + req.ttl_seconds->0 * 1_000_000
            > 9_223_372_036_854_775_807 ==> r->Ok_0.expires_at == Some(9_223_372_036_854_775_807i64),
        !(caller is Operator) ==> (r matches Err(e) && e@.code == Code::PermissionDenied),
        caller is Operator && r is Err ==> (r matches Err(e) && e@.code == Code::InvalidArgument),
{
}

/// Hashing goes on only from success.
pub proof fn a_secret_is_kept_only_if_hashed(outcome: Hashing, r: Result<(), Status>)
    requires
        call_ensures(on_secret_hashed, (outcome,), r),
    ensures
        r is Ok <==> outcome is Done,
        r matches Err(e) ==> e@.code == Code::Internal,
{
}

/// A credential command answers with the index it was applied at, and with
/// nothing else that would read as done.
pub proof fn a_command_is_done_when_applied(
    applied: Result<Applied, ConsensusError>,
    minted: Result<u64, Status>,
    dropped: Result<u64, Status>,
    barred: Result<u64, Status>,
)
    requires
        call_ensures(on_minted, (applied,), minted),
        call_ensures(on_token_revoked, (applied,), dropped),
        call_ensures(on_identity_revoked, (applied,), barred),
    ensures
        applied matches Ok(Applied::At(i)) ==> minted == Ok::<u64, Status>(i) && dropped == Ok::<
            u64,
            Status,
        >(i) && barred == Ok::<u64, Status>(i),
        minted is Ok <==> (applied matches Ok(Applied::At(_))),
        dropped is Ok <==> (applied matches Ok(Applied::At(_))),
        barred is Ok <==> (applied matches Ok(Applied::At(_))),
        applied matches Ok(Applied::Rejected { .. }) ==> minted->Err_0@.code
            == Code::FailedPrecondition && dropped->Err_0@.code == Code::FailedPrecondition
            && barred->Err_0@.code == Code::FailedPrecondition,
{
}

/// The inventory holds every token once, in order, as it stands, and only an
/// operator reads it.
pub proof fn the_inventory_is_complete(
    service: AdminService,
    seam: crate::admin::authz::Seam,
    caller: Caller,
    history: Vec<u8>,
    tokens: Vec<EnrollToken>,
    at: int,
    r: Result<Vec<EnrollTokenSummary>, Status>,
)
    requires
        call_ensures(AdminService::list_enroll_tokens, (&service, &caller, &history, &tokens), r),
        service.seam == Some(seam),
        history@ == seam.history_id@,
        history@.len() == 16,
    ensures
        r is Ok <==> caller is Operator,
        r matches Ok(list) ==> list@.len() == tokens@.len(),
        r is Ok && 0 <= at < tokens@.len() ==> {
            let line = r->Ok_0@[at];
            &&& line.token_id == tokens@[at].id
            &&& line.role == tokens@[at].role
            &&& line.label@ == tokens@[at].label@
            &&& line.minted_at_us == tokens@[at].minted_at
            &&& line.expires_at_us == tokens@[at].expires_at
            &&& line.revoked == tokens@[at].revoked
        },
{
    if r is Ok && 0 <= at < tokens@.len() {
        assert(summarizes(r->Ok_0@[at], tokens@[at]));
    }
}

/// An operator revokes exactly what the request names, and a request that
/// names nothing readable revokes nothing.
pub proof fn what_is_named_is_revoked(
    service: AdminService,
    seam: crate::admin::authz::Seam,
    caller: Caller,
    history: Vec<u8>,
    token: Field<u128>,
    identity: Field<RevokedIdentity>,
    dropped: Result<u128, Status>,
    barred: Result<RevokedIdentity, Status>,
)
    requires
        call_ensures(AdminService::revoke_enroll_token, (&service, &caller, &history, token), dropped),
        call_ensures(AdminService::revoke_identity, (&service, &caller, &history, identity), barred),
        service.seam == Some(seam),
        history@ == seam.history_id@,
        history@.len() == 16,
    ensures
        dropped is Ok <==> caller is Operator && token is Given,
        dropped matches Ok(t) ==> token == Field::Given(t),
        barred is Ok <==> caller is Operator && identity is Given,
        barred matches Ok(i) ==> identity == Field::Given(i),
        !(caller is Operator) ==> dropped->Err_0@.code == Code::PermissionDenied
            && barred->Err_0@.code == Code::PermissionDenied,
        caller is Operator && !(token is Given) ==> dropped->Err_0@.code == Code::InvalidArgument,
        caller is Operator && !(identity is Given) ==> barred->Err_0@.code == Code::InvalidArgument,
{
}

/// A forwarded enrollment is taken with exactly the claims it carries, absent
/// ones included; a claim that cannot be read refuses it.
pub proof fn forwarded_claims_arrive_as_made(
    service: AdminService,
    seam: crate::admin::authz::Seam,
    caller: Caller,
    history: Vec<u8>,
    node: Option<Result<crate::cluster::NodeId, String>>,
    machine: Option<Result<MachineId, String>>,
    r: Result<Claims, Status>,
)
    requires
        call_ensures(AdminService::forward_enroll, (&service, &caller, &history, node, machine), r),
        service.seam == Some(seam),
        history@ == seam.history_id@,
        history@.len() == 16,
    ensures
        r is Ok <==> !(caller is Agent) && !(node matches Some(Err(_))) && !(machine matches Some(
            Err(_),
        )),
        r matches Ok(c) ==> (node is None <==> c.0 is None) && (machine is None <==> c.1 is None)
            && (node matches Some(Ok(n)) ==> c.0 == Some(n)) && (machine matches Some(Ok(m))
            ==> c.1 == Some(m)),
        caller is Agent ==> r->Err_0@.code == Code::PermissionDenied,
        !(caller is Agent) && r is Err ==> r->Err_0@.code == Code::InvalidArgument,
{
}

/// A machine renews itself and nobody else; an operator and an agent renew
/// nothing here.
pub proof fn a_machine_renews_itself(
    service: AdminService,
    seam: crate::admin::authz::Seam,
    caller: Caller,
    history: Vec<u8>,
    r: Result<MachineId, Status>,
)
    requires
        call_ensures(AdminService::renew_coordinator, (&service, &caller, &history), r),
        service.seam == Some(seam),
        history@ == seam.history_id@,
        history@.len() == 16,
    ensures
        caller matches Caller::Machine(m) ==> r == Ok::<MachineId, Status>(m),
        !(caller is Machine) ==> (r matches Err(e) && e@.code == Code::PermissionDenied),
{
}

/// No verb of this kind does anything for a request of another history, or
/// before a cluster is formed.
pub proof fn credentials_need_this_history(
    service: AdminService,
    caller: Caller,
    history: Vec<u8>,
    req: MintEnrollTokenRequest,
    now: i64,
    token: Field<u128>,
    minted: Result<MintTerms, Status>,
    dropped: Result<u128, Status>,
    renewed: Result<MachineId, Status>,
)
    requires
        call_ensures(AdminService::mint_enroll_token, (&service, &caller, &req, now), minted),
        call_ensures(AdminService::revoke_enroll_token, (&service, &caller, &history, token), dropped),
        call_ensures(AdminService::renew_coordinator, (&service, &caller, &history), renewed),
        req.history_id@ == history@,
        service.seam is None || history@ != service.seam->0.history_id@ || history@.len() != 16,
    ensures
        minted is Err,
        dropped is Err,
        renewed is Err,
{
}

/// Each failure of the core keeps its own code and, but for the
/// authentication failure, its own words.
pub proof fn each_failure_keeps_its_code(err: EnrollError, r: Status)
    requires
        call_ensures(enroll_error_to_status, (err,), r),
    ensures
        err is Unauthorized ==> r@.code == Code::Unauthenticated && r@.message
            == "enrollment refused"@,
        err matches EnrollError::BadRequest(m) ==> r@.code == Code::InvalidArgument && r@.message
            == m@,
        err matches EnrollError::Internal(m) ==> r@.code == Code::Internal && r@.message == m@,
        err is NotFormed || err is NotLeader ==> r@.code == Code::FailedPrecondition,
{
}

/// Issued material goes out as the text its bytes spell, leaf first.
pub proof fn issued_material_goes_out_as_text(
    issued: Result<Enrolled, EnrollError>,
    r: Result<(String, String), Status>,
)
    requires
        call_ensures(on_issued, (issued,), r),
    ensures
        r is Ok <==> issued is Ok && vstd::utf8::valid_utf8(issued->Ok_0.cert_pem@)
            && vstd::utf8::valid_utf8(issued->Ok_0.ca_pem@),
        r matches Ok(p) ==> p.0@ == vstd::utf8::decode_utf8(issued->Ok_0.cert_pem@) && p.1@
            == vstd::utf8::decode_utf8(issued->Ok_0.ca_pem@),
        issued is Ok && r is Err ==> r->Err_0@.code == Code::Internal,
{
}

} // verus!
