//! Admin refusals: a code, a message, and the machine-readable marker a
//! message opens with.
//!
//! A refusal carries one code and one string, and the code alone cannot
//! separate "keep polling" from "stop, an operator must look at this". The
//! markers below are the stable prefixes callers classify by; changing one of
//! these strings is a wire-visible change.

use vstd::prelude::*;

use crate::text;

verus! {

/// The refusal codes of the admin wire.
#[derive(Debug, Clone, Copy, PartialEq, Eq, Structural)]
pub enum Code {
    Cancelled,
    Unknown,
    InvalidArgument,
    DeadlineExceeded,
    NotFound,
    AlreadyExists,
    PermissionDenied,
    ResourceExhausted,
    FailedPrecondition,
    Aborted,
    OutOfRange,
    Unimplemented,
    Internal,
    Unavailable,
    DataLoss,
    Unauthenticated,
}

impl Code {
    /// The code's name as an operator reads it.
    pub open spec fn name_of(self) -> Seq<char> {
        match self {
            Code::Cancelled => "Cancelled"@,
            Code::Unknown => "Unknown"@,
            Code::InvalidArgument => "InvalidArgument"@,
            Code::DeadlineExceeded => "DeadlineExceeded"@,
            Code::NotFound => "NotFound"@,
            Code::AlreadyExists => "AlreadyExists"@,
            Code::PermissionDenied => "PermissionDenied"@,
            Code::ResourceExhausted => "ResourceExhausted"@,
            Code::FailedPrecondition => "FailedPrecondition"@,
            Code::Aborted => "Aborted"@,
            Code::OutOfRange => "OutOfRange"@,
            Code::Unimplemented => "Unimplemented"@,
            Code::Internal => "Internal"@,
            Code::Unavailable => "Unavailable"@,
            Code::DataLoss => "DataLoss"@,
            Code::Unauthenticated => "Unauthenticated"@,
        }
    }

    /// The code's name as an operator reads it.
    pub fn name(self) -> (r: &'static str)
        ensures
            r@ == self.name_of(),
    {
        match self {
            Code::Cancelled => "Cancelled",
            Code::Unknown => "Unknown",
            Code::InvalidArgument => "InvalidArgument",
            Code::DeadlineExceeded => "DeadlineExceeded",
            Code::NotFound => "NotFound",
            Code::AlreadyExists => "AlreadyExists",
            Code::PermissionDenied => "PermissionDenied",
            Code::ResourceExhausted => "ResourceExhausted",
            Code::FailedPrecondition => "FailedPrecondition",
            Code::Aborted => "Aborted",
            Code::OutOfRange => "OutOfRange",
            Code::Unimplemented => "Unimplemented",
            Code::Internal => "Internal",
            Code::Unavailable => "Unavailable",
            Code::DataLoss => "DataLoss",
            Code::Unauthenticated => "Unauthenticated",
        }
    }
}

/// A refusal: its code and its message.
#[derive(Debug, Clone)]
pub struct Status {
    pub code: Code,
    pub message: String,
}

/// What a [`Status`] says.
#[verifier::ext_equal]
pub struct StatusView {
    pub code: Code,
    pub message: Seq<char>,
}

impl View for Status {
    type V = StatusView;

    open spec fn view(&self) -> StatusView {
        StatusView { code: self.code, message: self.message@ }
    }
}

/// The refusal with this code and message.
pub open spec fn refusal(code: Code, message: Seq<char>) -> StatusView {
    StatusView { code, message }
}

/// Whether `r` is this refusal.
pub open spec fn refused_as<T>(r: Result<T, Status>, s: StatusView) -> bool {
    r matches Err(e) && e@ == s
}

impl Status {
    pub fn new(code: Code, message: String) -> (r: Status)
        ensures
            r@ == refusal(code, message@),
    {
        Status { code, message }
    }

    pub fn code(&self) -> (r: Code)
        ensures
            r == self@.code,
    {
        self.code
    }

    pub fn message(&self) -> (r: &str)
        ensures
            r@ == self@.message,
    {
        self.message.as_str()
    }

    pub fn invalid_argument(message: String) -> (r: Status)
        ensures
            r@ == refusal(Code::InvalidArgument, message@),
    {
        Status::new(Code::InvalidArgument, message)
    }

    pub fn failed_precondition(message: String) -> (r: Status)
        ensures
            r@ == refusal(Code::FailedPrecondition, message@),
    {
        Status::new(Code::FailedPrecondition, message)
    }

    pub fn permission_denied(message: String) -> (r: Status)
        ensures
            r@ == refusal(Code::PermissionDenied, message@),
    {
        Status::new(Code::PermissionDenied, message)
    }

    pub fn unauthenticated(message: String) -> (r: Status)
        ensures
            r@ == refusal(Code::Unauthenticated, message@),
    {
        Status::new(Code::Unauthenticated, message)
    }

    pub fn not_found(message: String) -> (r: Status)
        ensures
            r@ == refusal(Code::NotFound, message@),
    {
        Status::new(Code::NotFound, message)
    }

    pub fn aborted(message: String) -> (r: Status)
        ensures
            r@ == refusal(Code::Aborted, message@),
    {
        Status::new(Code::Aborted, message)
    }

    pub fn deadline_exceeded(message: String) -> (r: Status)
        ensures
            r@ == refusal(Code::DeadlineExceeded, message@),
    {
        Status::new(Code::DeadlineExceeded, message)
    }

    pub fn unavailable(message: String) -> (r: Status)
        ensures
            r@ == refusal(Code::Unavailable, message@),
    {
        Status::new(Code::Unavailable, message)
    }

    pub fn internal(message: String) -> (r: Status)
        ensures
            r@ == refusal(Code::Internal, message@),
    {
        Status::new(Code::Internal, message)
    }
}

/// `PromoteVoter` refused because the voter set is already at its configured
/// size. Retryable by polling: the caller stays a caught-up learner and
/// re-offers itself.
pub const VOTER_SET_FULL: &'static str = "voter-set-full";

/// A verb named a node id that is not in membership. Terminal.
pub const UNKNOWN_NODE: &'static str = "unknown-node";

/// `AddLearner` named a node already in membership at a different address.
/// Terminal: there is no silent repointing.
pub const ADDRESS_CONFLICT: &'static str = "address-conflict";

/// A machine identity is already bound to a different seat, or the seat to a
/// different identity. Terminal.
pub const MACHINE_IDENTITY_CONFLICT: &'static str = "machine-identity-conflict";

/// The same machine and seat re-offered at a different address. Terminal.
pub const MACHINE_ADDRESS_CONFLICT: &'static str = "machine-address-conflict";

/// The refusal matrix said no for this caller profile. Terminal.
pub const NOT_AUTHORIZED: &'static str = "not-authorized";

/// The request names a different raft history than this node's stamp.
/// Terminal: two histories can never merge.
pub const HISTORY_CONFLICT: &'static str = "history-conflict";

/// Dial-back verification of an advertised endpoint failed. Retryable: the
/// endpoint may not be serving yet.
pub const ENDPOINT_UNVERIFIED: &'static str = "endpoint-unverified";

/// `PromoteVoter` would exceed the configured size and no voter qualifies as
/// dead. Retryable by polling, like [`VOTER_SET_FULL`].
pub const NO_REMOVABLE_PEER: &'static str = "no-removable-peer";

/// A change would leave the continuing voters with no confirmed key holder.
/// Terminal.
pub const NO_KEY_HOLDER: &'static str = "no-key-holder";

/// The leader could not load its own key to transfer it. Terminal.
pub const KEY_UNAVAILABLE: &'static str = "key-unavailable";

/// The machine identity behind the request has been retired. Terminal.
pub const IDENTITY_RETIRED: &'static str = "identity-retired";

/// The leader cannot see a live majority of the voters a change would leave
/// behind. Retryable: contact may recover.
pub const QUORUM_AT_RISK: &'static str = "quorum-at-risk";

/// `ReplaceVoter` named an incoming node that already votes. Terminal.
pub const NEW_ALREADY_VOTER: &'static str = "new-already-voter";

/// `PromoteVoter` refused because the learner is still catching up. Retryable
/// by polling.
pub const LEARNER_BEHIND: &'static str = "learner-behind";

/// Whether `message` opens with `marker` and a colon.
pub open spec fn marked(message: Seq<char>, marker: Seq<char>) -> bool {
    text::begins_with(message, marker + seq![':'])
}

/// Whether `message` begins with `marker` as a whole prefix (`marker`, then a
/// colon), so classification is never fooled by a marker standing in some
/// other refusal's tail.
pub fn has_marker(message: &str, marker: &str) -> (r: bool)
    ensures
        r == marked(message@, marker@),
{
    proof {
        reveal_strlit(":");
        assert(":"@ == seq![':']);
    }
    let whole = marker.to_owned().concat(":");
    text::starts_with(message, whole.as_str())
}

/// A marker counts only at the head of a message and only whole: it counts
/// exactly when the message is the marker, a colon and whatever follows.
pub proof fn a_marker_heads_its_message(message: &str, marker: &str, r: bool)
    requires
        call_ensures(has_marker, (message, marker), r),
    ensures
        r <==> message@.len() > marker@.len() && message@.subrange(0, marker@.len() as int)
            == marker@ && message@[marker@.len() as int] == ':',
        r <==> exists|rest: Seq<char>| #[trigger] (marker@ + seq![':'] + rest) == message@,
{
    let m = marker@;
    let s = message@;
    let h = m + seq![':'];
    if r {
        assert(s.subrange(0, h.len() as int) == h);
        assert(s.subrange(0, m.len() as int) =~= h.subrange(0, m.len() as int));
        assert(h.subrange(0, m.len() as int) =~= m);
        assert(s[m.len() as int] == s.subrange(0, h.len() as int)[m.len() as int]);
        let rest = s.subrange(h.len() as int, s.len() as int);
        assert(m + seq![':'] + rest =~= s);
    }
    if s.len() > m.len() && s.subrange(0, m.len() as int) == m && s[m.len() as int] == ':' {
        assert(s.subrange(0, h.len() as int) =~= h) by {
            assert forall|i: int| 0 <= i < h.len() implies s.subrange(0, h.len() as int)[i]
                == h[i] by {
                if i < m.len() {
                    assert(s.subrange(0, m.len() as int)[i] == m[i]);
                }
            }
        }
    }
    if exists|rest: Seq<char>| #[trigger] (m + seq![':'] + rest) == s {
        let rest = choose|rest: Seq<char>| #[trigger] (m + seq![':'] + rest) == s;
        assert(s.subrange(0, h.len() as int) =~= h);
    }
}

} // verus!
