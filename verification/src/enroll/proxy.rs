//! The public enrollment endpoint: sign where this replica leads, pass the
//! request to the leader where it does not. A follower never redirects, since
//! that would have the enrollee send its token elsewhere.

use vstd::prelude::*;
use vstd::string::*;

use crate::cluster::ClusterSummary;
use crate::enroll::issue::{EnrollError, Enrolled};
use crate::status::{Code, Status};
use crate::text;
use crate::text::decimal_text;

verus! {

/// How long a follower waits for the leader's answer, in seconds.
pub const PROXY_TIMEOUT_SECS: u64 = 10;

/// How the endpoint refuses.
#[derive(Debug, Clone)]
pub enum EnrollRefusal {
    /// The one authentication refusal, without detail.
    Unauthorized,
    BadRequest(String),
    Unavailable(String),
}

/// The material an enrollee is handed.
#[derive(Debug, Clone)]
pub struct EnrollResponse {
    pub cert_pem: String,
    pub ca_pem: String,
}

/// Whether `r` is a refusal that asks to retry, with this text.
pub open spec fn unavailable(r: EnrollRefusal, text: Seq<char>) -> bool {
    r matches EnrollRefusal::Unavailable(m) && m@ == text
}

/// A failure of the enrollment core, as the endpoint refuses it. Nothing is
/// added to the authentication refusal.
pub fn refusal(err: EnrollError) -> (r: EnrollRefusal)
    ensures
        match err {
            EnrollError::Unauthorized => r is Unauthorized,
            EnrollError::BadRequest(m) => r == EnrollRefusal::BadRequest(m),
            EnrollError::NotFormed => unavailable(r, EnrollError::NotFormed.spelled()),
            EnrollError::NotLeader { .. } => unavailable(
                r,
                "leadership changed while enrolling; retry"@,
            ),
            EnrollError::Internal(m) => r == EnrollRefusal::Unavailable(m),
        },
{
    match err {
        EnrollError::Unauthorized => EnrollRefusal::Unauthorized,
        EnrollError::BadRequest(m) => EnrollRefusal::BadRequest(m),
        EnrollError::NotFormed => EnrollRefusal::Unavailable(EnrollError::NotFormed.text()),
        EnrollError::NotLeader { .. } => EnrollRefusal::Unavailable(
            "leadership changed while enrolling; retry".to_owned(),
        ),
        EnrollError::Internal(m) => EnrollRefusal::Unavailable(m),
    }
}

/// Issued material as text.
pub fn pem_string(pem: Vec<u8>) -> (r: Result<String, EnrollRefusal>)
    ensures
        if vstd::utf8::valid_utf8(pem@) {
            r matches Ok(s) && s@ == vstd::utf8::decode_utf8(pem@)
        } else {
            r matches Err(e) && unavailable(e, "issued material is not UTF-8"@)
        },
{
    match text::decoded(pem) {
        Ok(s) => Ok(s),
        Err(_) => Err(EnrollRefusal::Unavailable("issued material is not UTF-8".to_owned())),
    }
}

/// Where a request is issued.
#[derive(Debug, Clone)]
pub enum IssueRoute {
    /// Here: this replica leads.
    SignHere,
    /// At the leader, at this address.
    Forward(String),
    /// Nowhere.
    Refuse(EnrollRefusal),
}

/// Decide where a request is issued, wherever the key happens to be.
pub fn issue(summary: &ClusterSummary) -> (r: IssueRoute)
    ensures
        if summary.leads() {
            r is SignHere
        } else {
            match summary.leader {
                None => r matches IssueRoute::Refuse(e) && unavailable(
                    e,
                    "no leader is currently known (an election is in progress); retry"@,
                ),
                Some(leader) => if summary.seats(leader) {
                    r matches IssueRoute::Forward(addr) && addr@ == summary.members@[summary.seat_of(
                        leader,
                    )].addr@
                } else {
                    r matches IssueRoute::Refuse(e) && unavailable(
                        e,
                        "the leader (node "@ + text::decimal(leader as nat)
                            + ") has no address in this replica's membership view; retry"@,
                    )
                },
            }
        },
{
    if summary.is_leader() {
        return IssueRoute::SignHere;
    }
    let leader = match summary.leader {
        Some(leader) => leader,
        None => return IssueRoute::Refuse(
            EnrollRefusal::Unavailable(
                "no leader is currently known (an election is in progress); retry".to_owned(),
            ),
        ),
    };
    match summary.find(leader) {
        Some(at) => IssueRoute::Forward(summary.members[at].addr.clone()),
        None => IssueRoute::Refuse(
            EnrollRefusal::Unavailable(
                "the leader (node ".to_owned().concat(decimal_text(leader).as_str()).concat(
                    ") has no address in this replica's membership view; retry",
                ),
            ),
        ),
    }
}

/// The core issued, or failed. Both parts of what it issued must be text.
pub fn on_issued(issued: Result<Enrolled, EnrollError>) -> (r: Result<
    EnrollResponse,
    EnrollRefusal,
>)
    ensures
        match issued {
            Err(EnrollError::Unauthorized) => r matches Err(EnrollRefusal::Unauthorized),
            Err(EnrollError::BadRequest(m)) => r matches Err(EnrollRefusal::BadRequest(n)) && n
                == m,
            Err(EnrollError::NotFormed) => r matches Err(e) && unavailable(
                e,
                EnrollError::NotFormed.spelled(),
            ),
            Err(EnrollError::NotLeader { .. }) => r matches Err(e) && unavailable(
                e,
                "leadership changed while enrolling; retry"@,
            ),
            Err(EnrollError::Internal(m)) => r matches Err(e) && unavailable(e, m@),
            Ok(e) => if vstd::utf8::valid_utf8(e.cert_pem@) && vstd::utf8::valid_utf8(e.ca_pem@) {
                r matches Ok(resp) && resp.cert_pem@ == vstd::utf8::decode_utf8(e.cert_pem@)
                    && resp.ca_pem@ == vstd::utf8::decode_utf8(e.ca_pem@)
            } else {
                r matches Err(f) && unavailable(f, "issued material is not UTF-8"@)
            },
        },
{
    let issued = match issued {
        Err(e) => return Err(refusal(e)),
        Ok(issued) => issued,
    };
    let cert_pem = match pem_string(issued.cert_pem) {
        Err(e) => return Err(e),
        Ok(s) => s,
    };
    let ca_pem = match pem_string(issued.ca_pem) {
        Err(e) => return Err(e),
        Ok(s) => s,
    };
    Ok(EnrollResponse { cert_pem, ca_pem })
}

/// What passing a request to the leader came to.
#[derive(Debug, Clone)]
pub enum Forwarded {
    /// The leader could not be dialled.
    Unreachable(String),
    /// The leader refused.
    Refused(Status),
    /// The leader did not answer in time.
    TimedOut,
    Issued(EnrollResponse),
}

/// The leader's answer, as the endpoint gives it. An authentication refusal
/// stays the one opaque refusal, so passing a request on tells no more of the
/// token than signing here would.
pub fn forward_to_leader(outcome: Forwarded) -> (r: Result<EnrollResponse, EnrollRefusal>)
    ensures
        match outcome {
            Forwarded::Unreachable(e) => r matches Err(f) && unavailable(
                f,
                "could not reach the leader to enroll: "@ + e@,
            ),
            Forwarded::Refused(s) => match s@.code {
                Code::Unauthenticated => r matches Err(EnrollRefusal::Unauthorized),
                Code::InvalidArgument => r matches Err(EnrollRefusal::BadRequest(m)) && m@
                    == s@.message,
                _ => r matches Err(f) && unavailable(
                    f,
                    "the leader refused the proxied enrollment: "@ + s@.message,
                ),
            },
            Forwarded::TimedOut => r matches Err(f) && unavailable(
                f,
                "the leader did not answer the proxied enrollment in time; retry"@,
            ),
            Forwarded::Issued(resp) => r == Ok::<EnrollResponse, EnrollRefusal>(resp),
        },
{
    match outcome {
        Forwarded::Unreachable(e) => Err(
            EnrollRefusal::Unavailable(
                "could not reach the leader to enroll: ".to_owned().concat(e.as_str()),
            ),
        ),
        Forwarded::Refused(s) => match s.code() {
            Code::Unauthenticated => Err(EnrollRefusal::Unauthorized),
            Code::InvalidArgument => Err(EnrollRefusal::BadRequest(s.message().to_owned())),
            _ => Err(
                EnrollRefusal::Unavailable(
                    "the leader refused the proxied enrollment: ".to_owned().concat(s.message()),
                ),
            ),
        },
        Forwarded::TimedOut => Err(
            EnrollRefusal::Unavailable(
                "the leader did not answer the proxied enrollment in time; retry".to_owned(),
            ),
        ),
        Forwarded::Issued(resp) => Ok(resp),
    }
}

// ---------------------------------------------------------------------------
// What the endpoint answers
// ---------------------------------------------------------------------------

/// A request is signed exactly where this replica leads, passed on exactly
/// where the leader it knows has a seat, to that seat's address, and refused
/// for now everywhere else.
pub proof fn a_request_goes_to_the_leader(summary: ClusterSummary, r: IssueRoute)
    requires
        call_ensures(issue, (&summary,), r),
    ensures
        r is SignHere <==> summary.leader == Some(summary.local_id),
        r is Forward <==> summary.leader is Some && summary.leader->0 != summary.local_id
            && exists|i: int|
            0 <= i < summary.members@.len() && (#[trigger] summary.members@[i]).id
                == summary.leader->0,
        r matches IssueRoute::Forward(addr) ==> exists|i: int|
            0 <= i < summary.members@.len() && (#[trigger] summary.members@[i]).id
                == summary.leader->0 && summary.members@[i].addr@ == addr@,
        r matches IssueRoute::Refuse(e) ==> e is Unavailable,
{
    if summary.leader is Some {
        crate::cluster::a_seat_is_a_members_id(summary, summary.leader->0);
    }
}

/// Of all failures of the core the authentication failure alone is refused as
/// one, and a bad request keeps its words.
pub proof fn only_authentication_is_unauthorized(err: EnrollError, r: EnrollRefusal)
    requires
        call_ensures(refusal, (err,), r),
    ensures
        r is Unauthorized <==> err is Unauthorized,
        r is BadRequest <==> err is BadRequest,
        err matches EnrollError::BadRequest(m) ==> r == EnrollRefusal::BadRequest(m),
{
}

/// What was issued is handed out as the text its bytes spell, leaf and bundle
/// each in its place.
pub proof fn what_was_issued_is_handed_out(
    issued: Result<Enrolled, EnrollError>,
    r: Result<EnrollResponse, EnrollRefusal>,
)
    requires
        call_ensures(on_issued, (issued,), r),
    ensures
        r is Ok <==> issued is Ok && vstd::utf8::valid_utf8(issued->Ok_0.cert_pem@)
            && vstd::utf8::valid_utf8(issued->Ok_0.ca_pem@),
        r matches Ok(resp) ==> resp.cert_pem@ == vstd::utf8::decode_utf8(issued->Ok_0.cert_pem@)
            && resp.ca_pem@ == vstd::utf8::decode_utf8(issued->Ok_0.ca_pem@),
        (r matches Err(EnrollRefusal::Unauthorized)) <==> (issued matches Err(
            EnrollError::Unauthorized,
        )),
        (r matches Err(EnrollRefusal::BadRequest(_))) <==> (issued matches Err(
            EnrollError::BadRequest(_),
        )),
{
}

/// A leader's refusal keeps its kind through the hop, silence and distance
/// only ask to retry, and what the leader issued is handed on as it is.
pub proof fn the_leaders_answer_is_handed_on(
    outcome: Forwarded,
    r: Result<EnrollResponse, EnrollRefusal>,
)
    requires
        call_ensures(forward_to_leader, (outcome,), r),
    ensures
        r is Ok <==> outcome is Issued,
        outcome matches Forwarded::Issued(resp) ==> r == Ok::<EnrollResponse, EnrollRefusal>(resp),
        (r matches Err(EnrollRefusal::Unauthorized)) <==> (outcome matches Forwarded::Refused(s)
            && s@.code == Code::Unauthenticated),
        (r matches Err(EnrollRefusal::BadRequest(_))) <==> (outcome matches Forwarded::Refused(s)
            && s@.code == Code::InvalidArgument),
{
}

} // verus!
