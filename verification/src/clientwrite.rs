//! Forwarding a client's write to the leader.
//!
//! What crosses the hop is the client's request, never a decision made here:
//! the leader runs the whole write path on it. One hop, always. The request
//! has to arrive as it left, and the answer has to be the one the leader would
//! have given.

use vstd::prelude::*;
use vstd::string::*;

use crate::admin::tokens::Field;
use crate::cluster::ClusterSummary;
use crate::text;
use crate::text::{copy_all, decimal_text};
use crate::time;
use crate::time::Duration;
use crate::wire::copy_bytes;

verus! {

// ---------------------------------------------------------------------------
// The budget
// ---------------------------------------------------------------------------

/// How long a forwarded write may take in total, dial included, in seconds.
pub const FORWARD_TIMEOUT_SECS: u64 = 10;

/// The one instant every stage of a forwarded write must finish by, as time
/// since some fixed instant.
#[derive(Debug, Clone, Copy, PartialEq, Eq, Structural)]
pub struct Deadline {
    nanos: u128,
}

impl View for Deadline {
    type V = nat;

    closed spec fn view(&self) -> nat {
        self.nanos as nat
    }
}

/// Stamp the deadline of a write that begins at `now`.
pub fn forward_deadline(now: &Duration) -> (r: Deadline)
    ensures
        r@ == now@ + FORWARD_TIMEOUT_SECS * time::SECOND,
{
    let begun: u128 = now.as_nanos();
    Deadline { nanos: begun + FORWARD_TIMEOUT_SECS as u128 * time::SECOND }
}

impl Deadline {
    /// What a stage that begins at `now` may still spend.
    pub open spec fn left(self, now: nat) -> nat {
        if now >= self@ {
            0
        } else {
            (self@ - now) as nat
        }
    }

    /// What a stage that begins at `now` may still spend.
    pub fn remaining(&self, now: &Duration) -> (r: u128)
        ensures
            r == self.left(now@),
    {
        let at: u128 = now.as_nanos();
        if at >= self.nanos {
            0
        } else {
            self.nanos - at
        }
    }
}

/// A slow dial spends the call's time in place of adding to it: however long
/// the dial took, dial and call together never outlast the one budget.
pub proof fn stages_share_one_budget(begun: nat, dialled: nat, deadline: Deadline)
    requires
        deadline@ == begun + FORWARD_TIMEOUT_SECS * time::SECOND,
        begun <= dialled <= deadline@,
    ensures
        (dialled - begun) + deadline.left(dialled) == FORWARD_TIMEOUT_SECS * time::SECOND,
        deadline.left(deadline@) == 0,
{
}

// ---------------------------------------------------------------------------
// Answers
// ---------------------------------------------------------------------------

/// Why the leader rejected a write, as far as a client's answer differs.
#[derive(Debug, Clone, Copy, PartialEq, Eq, Structural)]
pub enum RejectionKind {
    Other,
    PermissionDenied,
    UnknownQuotaEntity,
    InvalidAuthorization,
    AuthorizationLockout,
}

/// The number a classification has on the wire.
pub open spec fn kind_number(kind: RejectionKind) -> i32 {
    match kind {
        RejectionKind::Other => 0,
        RejectionKind::PermissionDenied => 1,
        RejectionKind::UnknownQuotaEntity => 2,
        RejectionKind::InvalidAuthorization => 3,
        RejectionKind::AuthorizationLockout => 4,
    }
}

/// The classification of a number; one that is not known is the ordinary
/// rejection, never a guess at a stricter one.
pub open spec fn kind_of(raw: i32) -> RejectionKind {
    if raw == 1 {
        RejectionKind::PermissionDenied
    } else if raw == 2 {
        RejectionKind::UnknownQuotaEntity
    } else if raw == 3 {
        RejectionKind::InvalidAuthorization
    } else if raw == 4 {
        RejectionKind::AuthorizationLockout
    } else {
        RejectionKind::Other
    }
}

/// The classification the leader put on the wire.
pub fn rejection_kind_from_pb(raw: i32) -> (r: RejectionKind)
    ensures
        r == kind_of(raw),
{
    if raw == 1 {
        RejectionKind::PermissionDenied
    } else if raw == 2 {
        RejectionKind::UnknownQuotaEntity
    } else if raw == 3 {
        RejectionKind::InvalidAuthorization
    } else if raw == 4 {
        RejectionKind::AuthorizationLockout
    } else {
        RejectionKind::Other
    }
}

/// The number the leader puts on the wire.
pub fn rejection_kind_to_pb(kind: RejectionKind) -> (r: i32)
    ensures
        r == kind_number(kind),
{
    match kind {
        RejectionKind::Other => 0,
        RejectionKind::PermissionDenied => 1,
        RejectionKind::UnknownQuotaEntity => 2,
        RejectionKind::InvalidAuthorization => 3,
        RejectionKind::AuthorizationLockout => 4,
    }
}

/// Every classification survives the hop.
pub proof fn classifications_round_trip(kind: RejectionKind)
    ensures
        kind_of(kind_number(kind)) == kind,
{
}

/// The answer to a client whose write did not go through.
#[derive(Debug, Clone)]
pub enum ApiError {
    /// Ask the leader.
    NotLeader { leader_hint: Option<u64> },
    /// No replicated decision was reached.
    Unavailable(String),
    /// The request is malformed.
    Invalid(String),
    /// The leader's decision.
    ForwardedRejection { kind: RejectionKind, reason: String },
}

/// Whether `r` failed for want of a decision, with this text.
pub open spec fn unresolved<T>(r: Result<T, ApiError>, text: Seq<char>) -> bool {
    r matches Err(ApiError::Unavailable(m)) && m@ == text
}

/// Where to forward a write. A leader without an address here cannot be
/// forwarded to, and the client is told to look for it.
pub fn leader_address(summary: &ClusterSummary, leader: u64) -> (r: Result<String, ApiError>)
    ensures
        if summary.seats(leader) {
            r matches Ok(a) && a@ == summary.members@[summary.seat_of(leader)].addr@
        } else {
            r == Err::<String, ApiError>(ApiError::NotLeader { leader_hint: None })
        },
{
    match summary.find(leader) {
        Some(at) => Ok(summary.members[at].addr.clone()),
        None => Err(ApiError::NotLeader { leader_hint: None }),
    }
}

/// What a write that never left this replica is answered.
pub open spec fn not_sent_text(detail: Seq<char>) -> Seq<char> {
    "could not reach the leader to forward the write: "@ + detail
        + "; nothing was sent, so the write did not commit — it is safe to retry against any "@
        + "replica"@
}

/// What a write that went out and got no answer is told.
pub open spec fn lost_text() -> Seq<char> {
    "the leader did not answer the forwarded write within the 10s forwarding budget "@
        + "(dial included); the outcome is unknown and the request may still commit — retry "@
        + "it unchanged (its id makes the retry a no-op if it did)"@
}

/// A dial that failed and one that never finished are the same fact: nothing
/// left this replica.
pub fn not_sent(detail: &str) -> (r: ApiError)
    ensures
        r matches ApiError::Unavailable(m) && m@ == not_sent_text(detail@),
{
    ApiError::Unavailable(
        "could not reach the leader to forward the write: ".to_owned().concat(detail).concat(
            "; nothing was sent, so the write did not commit — it is safe to retry against any ",
        ).concat("replica"),
    )
}

/// How a dial ended.
#[derive(Debug, Clone)]
pub enum Dialled<T> {
    Connected(T),
    Failed(String),
    /// The deadline came first.
    Elapsed,
}

/// The dial ended, under the write's deadline.
pub fn under_dial_timeout<T>(dial: Dialled<T>) -> (r: Result<T, ApiError>)
    ensures
        match dial {
            Dialled::Connected(c) => r == Ok::<T, ApiError>(c),
            Dialled::Failed(e) => unresolved(r, not_sent_text(e@)),
            Dialled::Elapsed => unresolved(
                r,
                not_sent_text(
                    "the connection did not establish within the "@ + text::decimal(
                        FORWARD_TIMEOUT_SECS as nat,
                    ) + "s forwarding budget"@,
                ),
            ),
        },
{
    match dial {
        Dialled::Connected(c) => Ok(c),
        Dialled::Failed(e) => Err(not_sent(e.as_str())),
        Dialled::Elapsed => Err(
            not_sent(
                "the connection did not establish within the ".to_owned().concat(
                    decimal_text(FORWARD_TIMEOUT_SECS).as_str(),
                ).concat("s forwarding budget").as_str(),
            ),
        ),
    }
}

/// How a call ended.
#[derive(Debug, Clone)]
pub enum Called<T> {
    Answered(T),
    Refused(String),
    /// The deadline came first.
    Elapsed,
}

/// The call ended, under what the dial left of the deadline. Silence is no
/// evidence that the write did not commit: the outcome is unknown.
pub fn under_timeout<T>(call: Called<T>) -> (r: Result<T, ApiError>)
    ensures
        match call {
            Called::Answered(t) => r == Ok::<T, ApiError>(t),
            Called::Refused(m) => unresolved(
                r,
                "the leader did not complete the forwarded write: "@ + m@,
            ),
            Called::Elapsed => unresolved(r, lost_text()),
        },
{
    match call {
        Called::Answered(t) => Ok(t),
        Called::Refused(m) => Err(
            ApiError::Unavailable(
                "the leader did not complete the forwarded write: ".to_owned().concat(m.as_str()),
            ),
        ),
        Called::Elapsed => Err(
            ApiError::Unavailable(
                "the leader did not answer the forwarded write within the 10s forwarding budget ".to_owned().concat(
                    "(dial included); the outcome is unknown and the request may still commit — retry ",
                ).concat("it unchanged (its id makes the retry a no-op if it did)"),
            ),
        ),
    }
}

/// The two answers are never confused. One about a write that never left says
/// so, and a write that went out and got no answer is told that its outcome is
/// unknown, and never that nothing was sent.
pub proof fn silence_is_not_taken_for_a_failed_dial(detail: Seq<char>)
    ensures
        text::mentions(not_sent_text(detail), "nothing was sent"@),
        text::mentions(lost_text(), "the outcome is unknown"@),
        !text::mentions(lost_text(), "nothing was sent"@),
{
    reveal_strlit("nothing was sent");
    reveal_strlit("the outcome is unknown");
    reveal_strlit(
        "the leader did not answer the forwarded write within the 10s forwarding budget ",
    );
    reveal_strlit(
        "(dial included); the outcome is unknown and the request may still commit — retry ",
    );
    reveal_strlit("it unchanged (its id makes the retry a no-op if it did)");
    reveal_strlit("could not reach the leader to forward the write: ");
    reveal_strlit(
        "; nothing was sent, so the write did not commit — it is safe to retry against any ",
    );
    let unsent = not_sent_text(detail);
    let at = "could not reach the leader to forward the write: "@.len() + detail.len()
        + 2int;
    assert(unsent.subrange(at, at + "nothing was sent"@.len()) =~= "nothing was sent"@);
    assert(text::stands_at(unsent, "nothing was sent"@, at));
    let lost = lost_text();
    let head =
        "the leader did not answer the forwarded write within the 10s forwarding budget "@.len();
    let from = head + 17int;
    assert(lost.subrange(from, from + "the outcome is unknown"@.len())
        =~= "the outcome is unknown"@);
    assert(text::stands_at(lost, "the outcome is unknown"@, from));
    assert forall|i: int| 0 <= i && i + 2 < lost.len() implies !(#[trigger] lost[i] == 'w' && lost[i
        + 1] == 'a' && lost[i + 2] == 's') by {}
    assert forall|i: int| !text::stands_at(lost, "nothing was sent"@, i) by {
        if text::stands_at(lost, "nothing was sent"@, i) {
            let t = lost.subrange(i, i + "nothing was sent"@.len());
            assert(t[8] == 'w' && t[9] == 'a' && t[10] == 's');
            assert(lost[i + 8] == 'w' && lost[i + 9] == 'a' && lost[i + 10] == 's');
        }
    }
}

/// What the leader made of a forwarded write.
#[derive(Debug, Clone)]
pub enum Outcome {
    Applied { log_index: u64 },
    Rejected { kind: i32, reason: String },
    Invalid { message: String },
    NotLeader,
}

/// The leader's outcome as the answer to the client: the index it was applied
/// at, or the error the client would have had from the leader itself. No
/// outcome is no decision, and is not reported as one.
pub fn applied_index(outcome: Option<Outcome>) -> (r: Result<u64, ApiError>)
    ensures
        match outcome {
            Some(Outcome::Applied { log_index }) => r == Ok::<u64, ApiError>(log_index),
            Some(Outcome::Rejected { kind, reason }) => r == Err::<u64, ApiError>(
                (ApiError::ForwardedRejection { kind: kind_of(kind), reason }),
            ),
            Some(Outcome::Invalid { message }) => r == Err::<u64, ApiError>(
                ApiError::Invalid(message),
            ),
            Some(Outcome::NotLeader) => r == Err::<u64, ApiError>(
                (ApiError::NotLeader { leader_hint: None }),
            ),
            None => unresolved(r, "the leader answered the forwarded write with no outcome"@),
        },
{
    match outcome {
        Some(Outcome::Applied { log_index }) => Ok(log_index),
        Some(Outcome::Rejected { kind, reason }) => Err(
            ApiError::ForwardedRejection { kind: rejection_kind_from_pb(kind), reason },
        ),
        Some(Outcome::Invalid { message }) => Err(ApiError::Invalid(message)),
        Some(Outcome::NotLeader) => Err(ApiError::NotLeader { leader_hint: None }),
        None => Err(
            ApiError::Unavailable(
                "the leader answered the forwarded write with no outcome".to_owned(),
            ),
        ),
    }
}

// ---------------------------------------------------------------------------
// Requests
// ---------------------------------------------------------------------------

/// Who asks.
#[derive(Debug, Clone)]
pub struct Actor {
    pub principal: String,
    pub groups: Vec<String>,
    pub operator_cert: bool,
    pub auth_disabled: bool,
}

/// What an actor is.
#[verifier::ext_equal]
pub struct ActorView {
    pub principal: Seq<char>,
    pub groups: Seq<Seq<char>>,
    pub operator_cert: bool,
    pub auth_disabled: bool,
}

impl View for Actor {
    type V = ActorView;

    open spec fn view(&self) -> ActorView {
        ActorView {
            principal: self.principal@,
            groups: text::views(self.groups@),
            operator_cert: self.operator_cert,
            auth_disabled: self.auth_disabled,
        }
    }
}

impl Actor {
    fn copy(&self) -> (r: Actor)
        ensures
            r@ == self@,
    {
        Actor {
            principal: self.principal.clone(),
            groups: copy_all(&self.groups),
            operator_cert: self.operator_cert,
            auth_disabled: self.auth_disabled,
        }
    }
}

/// What a job asks for.
#[derive(Debug, Clone, Copy, PartialEq, Eq, Structural)]
pub struct Resources {
    pub cpu_millis: u64,
    pub memory_bytes: u64,
    pub disk_bytes: u64,
}

/// How a job is retried.
#[derive(Debug, Clone, Copy, PartialEq, Eq, Structural)]
pub struct RetryPolicy {
    pub max_retries: u32,
    pub retry_user_errors: bool,
}

/// A client's submission. Identifiers are 128 bits.
#[derive(Debug, Clone)]
pub struct SubmitJobRequest {
    pub job: u128,
    pub image: String,
    pub command: Vec<String>,
    /// Absent is the image's own; present and empty is another thing.
    pub entrypoint: Option<Vec<String>>,
    pub requests: Resources,
    pub priority: i32,
    pub max_runtime_seconds: Option<u64>,
    pub quota_entity: u128,
    pub retry: Option<RetryPolicy>,
}

/// What a submission says.
#[verifier::ext_equal]
pub struct SubmitView {
    pub job: u128,
    pub image: Seq<char>,
    pub command: Seq<Seq<char>>,
    pub entrypoint: Option<Seq<Seq<char>>>,
    pub requests: Resources,
    pub priority: i32,
    pub max_runtime_seconds: Option<u64>,
    pub quota_entity: u128,
    pub retry: Option<RetryPolicy>,
}

/// The view of an optional argument vector.
pub open spec fn argv_view(argv: Option<Vec<String>>) -> Option<Seq<Seq<char>>> {
    match argv {
        Some(v) => Some(text::views(v@)),
        None => None,
    }
}

impl View for SubmitJobRequest {
    type V = SubmitView;

    open spec fn view(&self) -> SubmitView {
        SubmitView {
            job: self.job,
            image: self.image@,
            command: text::views(self.command@),
            entrypoint: argv_view(self.entrypoint),
            requests: self.requests,
            priority: self.priority,
            max_runtime_seconds: self.max_runtime_seconds,
            quota_entity: self.quota_entity,
            retry: self.retry,
        }
    }
}

/// A submission on the wire. What every submission has may be absent there, or
/// malformed.
#[derive(Debug, Clone)]
pub struct ForwardSubmitJobRequest {
    pub history_id: Vec<u8>,
    pub actor: Option<Actor>,
    pub job: Field<u128>,
    pub image: String,
    pub command: Vec<String>,
    pub entrypoint: Option<Vec<String>>,
    pub requests: Field<Resources>,
    pub priority: i32,
    pub max_runtime_seconds: Option<u64>,
    pub quota_entity: Field<u128>,
    pub retry: Option<RetryPolicy>,
}

/// Why a forwarded request could not be read.
#[derive(Debug, Clone)]
pub enum ConvertError {
    MissingField(String),
    Malformed(String),
}

/// Whether `r` failed for want of this field.
pub open spec fn lacks<T>(r: Result<T, ConvertError>, name: Seq<char>) -> bool {
    r matches Err(ConvertError::MissingField(m)) && m@ == name
}

/// What keeps a required field from being read, if anything.
pub open spec fn unread<T, U>(r: Result<T, ConvertError>, field: Field<U>, name: Seq<char>) -> bool {
    match field {
        Field::Absent => lacks(r, name),
        Field::Malformed(e) => r == Err::<T, ConvertError>(ConvertError::Malformed(e)),
        Field::Given(_) => false,
    }
}

fn required<T>(field: Field<T>, name: &str) -> (r: Result<T, ConvertError>)
    ensures
        match field {
            Field::Given(v) => r == Ok::<T, ConvertError>(v),
            _ => unread(r, field, name@),
        },
{
    match field {
        Field::Given(v) => Ok(v),
        Field::Absent => Err(ConvertError::MissingField(name.to_owned())),
        Field::Malformed(e) => Err(ConvertError::Malformed(e)),
    }
}

/// The actor a request arrived with. Its absence is a malformed request: a
/// default would be another identity, not an anonymous one.
fn actor_from_pb(actor: Option<Actor>, name: &str) -> (r: Result<Actor, ConvertError>)
    ensures
        match actor {
            Some(a) => r == Ok::<Actor, ConvertError>(a),
            None => lacks(r, name@),
        },
{
    match actor {
        Some(a) => Ok(a),
        None => Err(ConvertError::MissingField(name.to_owned())),
    }
}

/// The actor of a forwarded abort, whose other fields need no conversion.
pub fn abort_actor_from_pb(actor: Option<Actor>) -> (r: Result<Actor, ConvertError>)
    ensures
        match actor {
            Some(a) => r == Ok::<Actor, ConvertError>(a),
            None => lacks(r, "ForwardAbortJobRequest.actor"@),
        },
{
    actor_from_pb(actor, "ForwardAbortJobRequest.actor")
}

/// Whether a wire request carries this submission, by this actor, whole.
pub open spec fn carries_submission(
    wire: ForwardSubmitJobRequest,
    req: SubmitView,
    actor: ActorView,
) -> bool {
    &&& wire.actor matches Some(a) && a@ == actor
    &&& wire.job == Field::Given(req.job)
    &&& wire.image@ == req.image
    &&& text::views(wire.command@) == req.command
    &&& argv_view(wire.entrypoint) == req.entrypoint
    &&& wire.requests == Field::Given(req.requests)
    &&& wire.priority == req.priority
    &&& wire.max_runtime_seconds == req.max_runtime_seconds
    &&& wire.quota_entity == Field::Given(req.quota_entity)
    &&& wire.retry == req.retry
}

fn copy_argv(argv: &Option<Vec<String>>) -> (r: Option<Vec<String>>)
    ensures
        argv_view(r) == argv_view(*argv),
{
    match argv {
        Some(v) => Some(copy_all(v)),
        None => None,
    }
}

/// The client's submission, on the wire.
pub fn submit_to_pb(history_id: &Vec<u8>, req: &SubmitJobRequest, actor: &Actor) -> (r:
    ForwardSubmitJobRequest)
    ensures
        r.history_id@ == history_id@,
        carries_submission(r, req@, actor@),
{
    ForwardSubmitJobRequest {
        history_id: copy_bytes(history_id),
        actor: Some(actor.copy()),
        job: Field::Given(req.job),
        image: req.image.clone(),
        command: copy_all(&req.command),
        entrypoint: copy_argv(&req.entrypoint),
        requests: Field::Given(req.requests),
        priority: req.priority,
        max_runtime_seconds: req.max_runtime_seconds,
        quota_entity: Field::Given(req.quota_entity),
        retry: req.retry,
    }
}

/// The submission again, as the leader's write path takes it. What the request
/// calls optional stays optional; what it requires is never defaulted.
pub fn submit_from_pb(wire: ForwardSubmitJobRequest) -> (r: Result<
    (SubmitJobRequest, Actor),
    ConvertError,
>)
    ensures
        if wire.actor is None {
            lacks(r, "ForwardSubmitJobRequest.actor"@)
        } else if !(wire.requests is Given) {
            unread(r, wire.requests, "ForwardSubmitJobRequest.requests"@)
        } else if !(wire.job is Given) {
            unread(r, wire.job, "ForwardSubmitJobRequest.job"@)
        } else if !(wire.quota_entity is Given) {
            unread(r, wire.quota_entity, "ForwardSubmitJobRequest.quota_entity"@)
        } else {
            r matches Ok(p) && carries_submission(wire, p.0@, p.1@)
        },
{
    let actor = match actor_from_pb(wire.actor, "ForwardSubmitJobRequest.actor") {
        Ok(a) => a,
        Err(e) => return Err(e),
    };
    let requests = match required(wire.requests, "ForwardSubmitJobRequest.requests") {
        Ok(v) => v,
        Err(e) => return Err(e),
    };
    let job = match required(wire.job, "ForwardSubmitJobRequest.job") {
        Ok(v) => v,
        Err(e) => return Err(e),
    };
    let quota_entity = match required(
        wire.quota_entity,
        "ForwardSubmitJobRequest.quota_entity",
    ) {
        Ok(v) => v,
        Err(e) => return Err(e),
    };
    Ok(
        (
            SubmitJobRequest {
                job,
                image: wire.image,
                command: wire.command,
                entrypoint: wire.entrypoint,
                requests,
                priority: wire.priority,
                max_runtime_seconds: wire.max_runtime_seconds,
                quota_entity,
                retry: wire.retry,
            },
            actor,
        ),
    )
}

/// A submission survives the hop field for field, and so does its actor: a
/// wire request carries at most one submission by one actor.
pub proof fn submissions_survive_the_hop(
    wire: ForwardSubmitJobRequest,
    sent: SubmitView,
    sender: ActorView,
    read: SubmitView,
    reader: ActorView,
)
    requires
        carries_submission(wire, sent, sender),
        carries_submission(wire, read, reader),
    ensures
        read == sent,
        reader == sender,
{
}

/// A quota upsert.
#[derive(Debug, Clone)]
pub struct ConfigureQuotaEntityRequest {
    pub entity: u128,
    pub parent: Option<u128>,
    pub name: String,
    pub quota_ucu: u64,
}

/// A quota upsert on the wire.
#[derive(Debug)]
pub struct ForwardConfigureQuotaEntityRequest {
    pub history_id: Vec<u8>,
    pub entity: Field<u128>,
    pub parent: Option<Result<u128, String>>,
    pub name: String,
    pub quota_ucu: u64,
    pub actor: Option<Actor>,
}

/// Whether a wire request carries this upsert, by this actor, whole.
pub open spec fn carries_upsert(
    wire: ForwardConfigureQuotaEntityRequest,
    req: ConfigureQuotaEntityRequest,
    actor: ActorView,
) -> bool {
    &&& wire.actor matches Some(a) && a@ == actor
    &&& wire.entity == Field::Given(req.entity)
    &&& match wire.parent {
        None => req.parent is None,
        Some(Ok(p)) => req.parent == Some(p),
        Some(Err(_)) => false,
    }
    &&& wire.name@ == req.name@
    &&& wire.quota_ucu == req.quota_ucu
}

/// The upsert, on the wire.
pub fn configure_to_pb(history_id: &Vec<u8>, req: &ConfigureQuotaEntityRequest, actor: &Actor) -> (r:
    ForwardConfigureQuotaEntityRequest)
    ensures
        r.history_id@ == history_id@,
        carries_upsert(r, *req, actor@),
{
    ForwardConfigureQuotaEntityRequest {
        history_id: copy_bytes(history_id),
        entity: Field::Given(req.entity),
        parent: match req.parent {
            Some(p) => Some(Ok(p)),
            None => None,
        },
        name: req.name.clone(),
        quota_ucu: req.quota_ucu,
        actor: Some(actor.copy()),
    }
}

/// The upsert again, as the leader's write path takes it.
pub fn configure_from_pb(wire: ForwardConfigureQuotaEntityRequest) -> (r: Result<
    (ConfigureQuotaEntityRequest, Actor),
    ConvertError,
>)
    ensures
        if wire.actor is None {
            lacks(r, "ForwardConfigureQuotaEntityRequest.actor"@)
        } else if !(wire.entity is Given) {
            unread(r, wire.entity, "ForwardConfigureQuotaEntityRequest.entity"@)
        } else if wire.parent matches Some(Err(e)) {
            r == Err::<(ConfigureQuotaEntityRequest, Actor), ConvertError>(
                ConvertError::Malformed(wire.parent->0->Err_0),
            )
        } else {
            r matches Ok(p) && carries_upsert(wire, p.0, p.1@)
        },
{
    let actor = match actor_from_pb(wire.actor, "ForwardConfigureQuotaEntityRequest.actor") {
        Ok(a) => a,
        Err(e) => return Err(e),
    };
    let entity = match required(wire.entity, "ForwardConfigureQuotaEntityRequest.entity") {
        Ok(v) => v,
        Err(e) => return Err(e),
    };
    let parent = match wire.parent {
        None => None,
        Some(Ok(p)) => Some(p),
        Some(Err(e)) => return Err(ConvertError::Malformed(e)),
    };
    Ok(
        (
            ConfigureQuotaEntityRequest {
                entity,
                parent,
                name: wire.name,
                quota_ucu: wire.quota_ucu,
            },
            actor,
        ),
    )
}

/// A role binding as a client writes it: it must name a group or a principal.
#[derive(Debug, Clone)]
pub struct BindingDto {
    pub group: Option<String>,
    pub principal: Option<String>,
    pub role: String,
    pub scope: Option<u128>,
}

/// Whom a binding is for.
#[derive(Debug, Clone)]
pub enum BindingSubject {
    Group(String),
    Principal(String),
}

/// A role binding on the wire.
#[derive(Debug, Clone)]
pub struct WireBinding {
    pub subject: BindingSubject,
    pub role: String,
    pub scope: Option<u128>,
}

/// Whether a binding names exactly one subject.
pub open spec fn names_one(b: BindingDto) -> bool {
    (b.group is Some) != (b.principal is Some)
}

/// Whether a wire binding is this binding.
pub open spec fn same_binding(w: WireBinding, b: BindingDto) -> bool {
    &&& match w.subject {
        BindingSubject::Group(g) => b.group matches Some(x) && x@ == g@ && b.principal is None,
        BindingSubject::Principal(p) => b.principal matches Some(x) && x@ == p@ && b.group is None,
    }
    &&& w.role@ == b.role@
    &&& w.scope == b.scope
}

/// Whether these are the same bindings, in order.
pub open spec fn same_bindings(w: Seq<WireBinding>, b: Seq<BindingDto>) -> bool {
    &&& w.len() == b.len()
    &&& forall|i: int| 0 <= i < w.len() ==> same_binding(#[trigger] w[i], b[i])
}

/// A replacement of the role bindings.
#[derive(Debug, Clone)]
pub struct UpdateAuthorizationRequest {
    /// Absent leaves the replicated name alone.
    pub groups_claim: Option<String>,
    pub bindings: Vec<BindingDto>,
}

/// A replacement on the wire.
#[derive(Debug, Clone)]
pub struct ForwardUpdateAuthorizationRequest {
    pub history_id: Vec<u8>,
    pub bindings: Vec<WireBinding>,
    pub groups_claim: Option<String>,
    pub actor: Option<Actor>,
}

/// The first binding that does not name exactly one subject, or their number.
pub open spec fn first_ill_named(bindings: Seq<BindingDto>) -> int
    decreases bindings.len(),
{
    if bindings.len() == 0 || !names_one(bindings[0]) {
        0
    } else {
        1 + first_ill_named(bindings.subrange(1, bindings.len() as int))
    }
}

/// What an ill-named binding is refused with.
pub open spec fn ill_named_text(at: nat) -> Seq<char> {
    "binding "@ + text::decimal(at) + ": exactly one of group and principal must be named"@
}

fn copy_text(s: &Option<String>) -> (r: Option<String>)
    ensures
        r is Some <==> *s is Some,
        r matches Some(t) ==> t@ == (*s)->0@,
{
    match s {
        Some(t) => Some(t.clone()),
        None => None,
    }
}

/// The replacement, on the wire. A binding that names both subjects or neither
/// has no wire form, and is refused rather than guessed at.
pub fn authorization_to_pb(
    history_id: &Vec<u8>,
    req: &UpdateAuthorizationRequest,
    actor: &Actor,
) -> (r: Result<ForwardUpdateAuthorizationRequest, ApiError>)
    ensures
        ({
            let at = first_ill_named(req.bindings@);
            if at < req.bindings@.len() {
                r matches Err(ApiError::Invalid(m)) && m@ == ill_named_text(at as nat)
            } else {
                r matches Ok(w) && {
                    &&& w.history_id@ == history_id@
                    &&& same_bindings(w.bindings@, req.bindings@)
                    &&& w.groups_claim is Some <==> req.groups_claim is Some
                    &&& w.groups_claim matches Some(c) ==> c@ == req.groups_claim->0@
                    &&& w.actor matches Some(a) && a@ == actor@
                }
            }
        }),
{
    let mut bindings: Vec<WireBinding> = Vec::new();
    let n: usize = req.bindings.len();
    let mut i: usize = 0;
    assert(req.bindings@.subrange(0, n as int) =~= req.bindings@);
    while i < n
        invariant
            n == req.bindings@.len(),
            i <= n,
            same_bindings(bindings@, req.bindings@.subrange(0, i as int)),
            first_ill_named(req.bindings@) == i + first_ill_named(
                req.bindings@.subrange(i as int, n as int),
            ),
        decreases n - i,
    {
        let ghost rest = req.bindings@.subrange(i as int, n as int);
        assert(rest.subrange(1, rest.len() as int) =~= req.bindings@.subrange(i + 1, n as int));
        let b = &req.bindings[i];
        let subject = match (&b.group, &b.principal) {
            (Some(g), None) => BindingSubject::Group(g.clone()),
            (None, Some(p)) => BindingSubject::Principal(p.clone()),
            _ => {
                return Err(
                    ApiError::Invalid(
                        "binding ".to_owned().concat(decimal_text(i as u64).as_str()).concat(
                            ": exactly one of group and principal must be named",
                        ),
                    ),
                );
            },
        };
        let w = WireBinding { subject, role: b.role.clone(), scope: b.scope };
        assert(same_binding(w, req.bindings@[i as int]));
        bindings.push(w);
        i = i + 1;
    }
    Ok(
        ForwardUpdateAuthorizationRequest {
            history_id: copy_bytes(history_id),
            bindings,
            groups_claim: copy_text(&req.groups_claim),
            actor: Some(actor.copy()),
        },
    )
}

/// The replacement again, as the leader's write path takes it.
pub fn authorization_from_pb(wire: ForwardUpdateAuthorizationRequest) -> (r: Result<
    (UpdateAuthorizationRequest, Actor),
    ConvertError,
>)
    ensures
        match wire.actor {
            None => lacks(r, "ForwardUpdateAuthorizationRequest.actor"@),
            Some(a) => r matches Ok(p) && {
                &&& p.0.groups_claim == wire.groups_claim
                &&& same_bindings(wire.bindings@, p.0.bindings@)
                &&& p.1 == a
            },
        },
{
    let actor = match actor_from_pb(wire.actor, "ForwardUpdateAuthorizationRequest.actor") {
        Ok(a) => a,
        Err(e) => return Err(e),
    };
    let mut bindings: Vec<BindingDto> = Vec::new();
    let mut i: usize = 0;
    while i < wire.bindings.len()
        invariant
            i <= wire.bindings@.len(),
            same_bindings(wire.bindings@.subrange(0, i as int), bindings@),
        decreases wire.bindings@.len() - i,
    {
        let w = &wire.bindings[i];
        let (group, principal) = match &w.subject {
            BindingSubject::Group(g) => (Some(g.clone()), None),
            BindingSubject::Principal(p) => (None, Some(p.clone())),
        };
        let b = BindingDto { group, principal, role: w.role.clone(), scope: w.scope };
        assert(same_binding(wire.bindings@[i as int], b));
        bindings.push(b);
        i = i + 1;
    }
    assert(wire.bindings@.subrange(0, wire.bindings@.len() as int) =~= wire.bindings@);
    Ok((UpdateAuthorizationRequest { groups_claim: wire.groups_claim, bindings }, actor))
}

/// Role bindings survive the hop: whatever is read back says of every binding,
/// in order, what was sent.
pub proof fn bindings_survive_the_hop(
    wire: Seq<WireBinding>,
    sent: Seq<BindingDto>,
    read: Seq<BindingDto>,
    i: int,
)
    requires
        same_bindings(wire, sent),
        same_bindings(wire, read),
        0 <= i < sent.len(),
    ensures
        sent.len() == read.len(),
        sent[i].group is Some <==> read[i].group is Some,
        sent[i].group is Some ==> sent[i].group->0@ == read[i].group->0@,
        sent[i].principal is Some <==> read[i].principal is Some,
        sent[i].principal is Some ==> sent[i].principal->0@ == read[i].principal->0@,
        sent[i].role@ == read[i].role@,
        sent[i].scope == read[i].scope,
{
    assert(same_binding(wire[i], sent[i]));
    assert(same_binding(wire[i], read[i]));
}

// ---------------------------------------------------------------------------
// What a forwarded write comes to
// ---------------------------------------------------------------------------

/// A forwarded write has ten seconds in all, whichever stage asks.
pub proof fn a_write_has_ten_seconds(
    begun: Duration,
    now: Duration,
    deadline: Deadline,
    left: u128,
)
    requires
        call_ensures(forward_deadline, (&begun,), deadline),
        call_ensures(Deadline::remaining, (&deadline, &now), left),
    ensures
        now@ <= begun@ + 10_000_000_000 ==> left == begun@ + 10_000_000_000 - now@,
        now@ >= begun@ + 10_000_000_000 ==> left == 0,
{
}

/// The numbers of the classifications: each has its own, and an unknown one is
/// ordinary.
pub proof fn classifications_have_their_numbers(
    kind: RejectionKind,
    raw: i32,
    number: i32,
    read: RejectionKind,
)
    requires
        call_ensures(rejection_kind_to_pb, (kind,), number),
        call_ensures(rejection_kind_from_pb, (raw,), read),
    ensures
        kind == RejectionKind::Other <==> number == 0,
        kind == RejectionKind::PermissionDenied <==> number == 1,
        kind == RejectionKind::UnknownQuotaEntity <==> number == 2,
        kind == RejectionKind::InvalidAuthorization <==> number == 3,
        kind == RejectionKind::AuthorizationLockout <==> number == 4,
        raw == number ==> read == kind,
        raw < 1 || raw > 4 ==> read == RejectionKind::Other,
{
}

/// A write is forwarded to the address the leader's own seat carries, and a
/// leader without a seat is not forwarded to.
pub proof fn a_write_goes_to_the_leaders_seat(
    summary: ClusterSummary,
    leader: u64,
    r: Result<String, ApiError>,
)
    requires
        call_ensures(leader_address, (&summary, leader), r),
    ensures
        r is Ok <==> exists|i: int|
            0 <= i < summary.members@.len() && (#[trigger] summary.members@[i]).id == leader,
        r matches Ok(addr) ==> exists|i: int|
            0 <= i < summary.members@.len() && (#[trigger] summary.members@[i]).id == leader
                && summary.members@[i].addr@ == addr@,
        r matches Err(e) ==> e == (ApiError::NotLeader { leader_hint: None }),
{
    crate::cluster::a_seat_is_a_members_id(summary, leader);
}

/// A dial that connected hands on its connection; every other says that
/// nothing was sent.
pub proof fn an_unfinished_dial_sent_nothing<T>(dial: Dialled<T>, r: Result<T, ApiError>)
    requires
        call_ensures(under_dial_timeout::<T>, (dial,), r),
    ensures
        r is Ok <==> dial is Connected,
        dial matches Dialled::Connected(c) ==> r == Ok::<T, ApiError>(c),
        r is Err ==> (r->Err_0 matches ApiError::Unavailable(m) && text::mentions(
            m@,
            "nothing was sent"@,
        )),
{
    if let Err(ApiError::Unavailable(m)) = r {
        match dial {
            Dialled::Failed(e) => {
                silence_is_not_taken_for_a_failed_dial(e@);
            },
            _ => {
                silence_is_not_taken_for_a_failed_dial(
                    "the connection did not establish within the "@ + text::decimal(
                        FORWARD_TIMEOUT_SECS as nat,
                    ) + "s forwarding budget"@,
                );
            },
        }
    }
}

/// A call that was answered hands on its answer; silence leaves the outcome
/// unknown, and never says that nothing was sent.
pub proof fn an_unanswered_call_may_have_committed<T>(call: Called<T>, r: Result<T, ApiError>)
    requires
        call_ensures(under_timeout::<T>, (call,), r),
    ensures
        r is Ok <==> call is Answered,
        call matches Called::Answered(t) ==> r == Ok::<T, ApiError>(t),
        call is Elapsed ==> (r matches Err(ApiError::Unavailable(m)) && text::mentions(
            m@,
            "the outcome is unknown"@,
        ) && !text::mentions(m@, "nothing was sent"@)),
        r is Err ==> r->Err_0 is Unavailable,
{
    silence_is_not_taken_for_a_failed_dial(seq![]);
}

/// The client gets the leader's own decision: the index of what was applied,
/// the leader's reason for what was not, and no decision where there was none.
pub proof fn the_leaders_decision_is_the_clients(
    outcome: Option<Outcome>,
    r: Result<u64, ApiError>,
)
    requires
        call_ensures(applied_index, (outcome,), r),
    ensures
        r is Ok <==> (outcome matches Some(Outcome::Applied { .. })),
        outcome matches Some(Outcome::Applied { log_index }) ==> r == Ok::<u64, ApiError>(
            log_index,
        ),
        outcome matches Some(Outcome::Rejected { kind, reason }) ==> (r matches Err(
            ApiError::ForwardedRejection { kind: k, reason: why },
        ) && why == reason && (kind == 1 <==> k == RejectionKind::PermissionDenied) && (kind == 2
            <==> k == RejectionKind::UnknownQuotaEntity) && (kind == 3 <==> k
            == RejectionKind::InvalidAuthorization) && (kind == 4 <==> k
            == RejectionKind::AuthorizationLockout)),
        outcome matches Some(Outcome::Invalid { message }) ==> r == Err::<u64, ApiError>(
            ApiError::Invalid(message),
        ),
        outcome matches Some(Outcome::NotLeader) ==> r == Err::<u64, ApiError>(
            (ApiError::NotLeader { leader_hint: None }),
        ),
        outcome is None ==> (r matches Err(ApiError::Unavailable(_))),
{
}

/// An abort is read exactly when it names who asks.
pub proof fn an_abort_names_its_actor(actor: Option<Actor>, r: Result<Actor, ConvertError>)
    requires
        call_ensures(abort_actor_from_pb, (actor,), r),
    ensures
        r is Ok <==> actor is Some,
        actor matches Some(a) ==> r == Ok::<Actor, ConvertError>(a),
        r matches Err(e) ==> e is MissingField,
{
}

/// A submission that crosses the hop arrives as it left, field by field, with
/// the actor it left with.
pub proof fn a_submission_arrives_as_it_left(
    history_id: Vec<u8>,
    req: SubmitJobRequest,
    actor: Actor,
    wire: ForwardSubmitJobRequest,
    r: Result<(SubmitJobRequest, Actor), ConvertError>,
)
    requires
        call_ensures(submit_to_pb, (&history_id, &req, &actor), wire),
        call_ensures(submit_from_pb, (wire,), r),
    ensures
        wire.history_id@ == history_id@,
        r is Ok,
        (r->Ok_0).0.job == req.job,
        (r->Ok_0).0.image@ == req.image@,
        text::views((r->Ok_0).0.command@) == text::views(req.command@),
        (r->Ok_0).0.entrypoint is Some <==> req.entrypoint is Some,
        req.entrypoint is Some ==> text::views((r->Ok_0).0.entrypoint->0@) == text::views(
            req.entrypoint->0@,
        ),
        (r->Ok_0).0.requests == req.requests,
        (r->Ok_0).0.priority == req.priority,
        (r->Ok_0).0.max_runtime_seconds == req.max_runtime_seconds,
        (r->Ok_0).0.quota_entity == req.quota_entity,
        (r->Ok_0).0.retry == req.retry,
        (r->Ok_0).1.principal@ == actor.principal@,
        text::views((r->Ok_0).1.groups@) == text::views(actor.groups@),
        (r->Ok_0).1.operator_cert == actor.operator_cert,
        (r->Ok_0).1.auth_disabled == actor.auth_disabled,
{
}

/// A submission is read exactly when it has its actor, its job, its resources
/// and its entity; nothing it requires is made up.
pub proof fn nothing_required_is_made_up(
    wire: ForwardSubmitJobRequest,
    r: Result<(SubmitJobRequest, Actor), ConvertError>,
)
    requires
        call_ensures(submit_from_pb, (wire,), r),
    ensures
        r is Ok <==> wire.actor is Some && wire.requests is Given && wire.job is Given
            && wire.quota_entity is Given,
        wire.actor is None ==> (r matches Err(ConvertError::MissingField(_))),
{
}

/// A quota upsert that crosses the hop arrives as it left.
pub proof fn an_upsert_arrives_as_it_left(
    history_id: Vec<u8>,
    req: ConfigureQuotaEntityRequest,
    actor: Actor,
    wire: ForwardConfigureQuotaEntityRequest,
    r: Result<(ConfigureQuotaEntityRequest, Actor), ConvertError>,
)
    requires
        call_ensures(configure_to_pb, (&history_id, &req, &actor), wire),
        call_ensures(configure_from_pb, (wire,), r),
    ensures
        wire.history_id@ == history_id@,
        r is Ok,
        (r->Ok_0).0.entity == req.entity,
        (r->Ok_0).0.parent == req.parent,
        (r->Ok_0).0.name@ == req.name@,
        (r->Ok_0).0.quota_ucu == req.quota_ucu,
        (r->Ok_0).1@ == actor@,
{
}

proof fn first_ill_named_is_first(bindings: Seq<BindingDto>)
    ensures
        0 <= first_ill_named(bindings) <= bindings.len(),
        first_ill_named(bindings) < bindings.len() ==> !names_one(
            bindings[first_ill_named(bindings)],
        ),
        forall|j: int| 0 <= j < first_ill_named(bindings) ==> names_one(#[trigger] bindings[j]),
    decreases bindings.len(),
{
    if bindings.len() > 0 && names_one(bindings[0]) {
        let rest = bindings.subrange(1, bindings.len() as int);
        first_ill_named_is_first(rest);
        assert forall|j: int| 0 <= j < first_ill_named(bindings) implies names_one(
            #[trigger] bindings[j],
        ) by {
            if j > 0 {
                assert(rest[j - 1] == bindings[j]);
            }
        }
    }
}

/// A replacement goes out exactly when each binding names a group or a
/// principal and not both; what goes out comes back as it was, binding by
/// binding.
pub proof fn a_replacement_arrives_as_it_left(
    history_id: Vec<u8>,
    req: UpdateAuthorizationRequest,
    actor: Actor,
    sent: Result<ForwardUpdateAuthorizationRequest, ApiError>,
    i: int,
    r: Result<(UpdateAuthorizationRequest, Actor), ConvertError>,
)
    requires
        call_ensures(authorization_to_pb, (&history_id, &req, &actor), sent),
        sent is Ok ==> call_ensures(authorization_from_pb, (sent->Ok_0,), r),
    ensures
        sent is Ok <==> forall|j: int|
            0 <= j < req.bindings@.len() ==> ((#[trigger] req.bindings@[j]).group is Some)
                != (req.bindings@[j].principal is Some),
        sent is Err ==> sent->Err_0 is Invalid,
        sent is Ok ==> r is Ok && (r->Ok_0).0.bindings@.len() == req.bindings@.len() && ((
        r->Ok_0).0.groups_claim is Some <==> req.groups_claim is Some) && (req.groups_claim is Some
            ==> (r->Ok_0).0.groups_claim->0@ == req.groups_claim->0@) && (r->Ok_0).1@ == actor@,
        sent is Ok && 0 <= i < req.bindings@.len() ==> {
            let b = (r->Ok_0).0.bindings@[i];
            &&& b.group is Some <==> req.bindings@[i].group is Some
            &&& b.group is Some ==> b.group->0@ == req.bindings@[i].group->0@
            &&& b.principal is Some ==> b.principal->0@ == req.bindings@[i].principal->0@
            &&& b.role@ == req.bindings@[i].role@
            &&& b.scope == req.bindings@[i].scope
        },
{
    first_ill_named_is_first(req.bindings@);
    let at = first_ill_named(req.bindings@);
    if at < req.bindings@.len() {
        assert(!names_one(req.bindings@[at]));
    } else {
        assert forall|j: int| 0 <= j < req.bindings@.len() implies ((
        #[trigger] req.bindings@[j]).group is Some) != (req.bindings@[j].principal is Some) by {
            assert(names_one(req.bindings@[j]));
        }
        if 0 <= i < req.bindings@.len() {
            bindings_survive_the_hop(
                sent->Ok_0.bindings@,
                req.bindings@,
                (r->Ok_0).0.bindings@,
                i,
            );
        }
    }
}

} // verus!
