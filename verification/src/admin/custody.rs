//! Custody of the cluster's signing key.
//!
//! The key moves from the leader to a candidate only, and never without a
//! replicated trace: the intent is recorded and visible before a byte leaves
//! the leader's disk, and possession is confirmed only after the candidate
//! acknowledged a durable write.

use vstd::prelude::*;
use vstd::string::*;

use crate::admin::authz::{AdminService, Caller, Seam, Verb};
use crate::admin::endpoint::Applied;
use crate::admin::refusals;
use crate::admin::refusals::{consensus_error_to_status, endpoint_unverified_status};
use crate::cluster::{ConsensusError, MachineId};
use crate::status;
use crate::status::{Code, Status, StatusView, KEY_UNAVAILABLE, NOT_AUTHORIZED, UNKNOWN_NODE};
use crate::text;
use crate::text::decimal_text;
use crate::time::Duration;
use crate::wire::copy_bytes;

verus! {

// ---------------------------------------------------------------------------
// Crash injection
// ---------------------------------------------------------------------------

/// Stop a promotion between confirmed receipt of the key and the joint change.
pub const PROMOTE_AFTER_KEY_TRANSFER: &'static str = "promote-after-key-transfer";

/// Stop a transfer between the candidate's acknowledgement and the
/// confirmation.
pub const TRANSFER_BEFORE_CONFIRM: &'static str = "transfer-before-confirm";

/// What the stop of a promotion reads as.
pub const PROMOTION_STOPPED: &'static str =
    "promotion aborted at the promote-after-key-transfer failpoint (test-only)";

/// What the stop of a transfer reads as.
pub const TRANSFER_STOPPED: &'static str =
    "key transfer aborted at the transfer-before-confirm failpoint (test-only)";

/// A crash point that fires at most once.
#[derive(Debug, Clone, Copy, PartialEq, Eq, Structural)]
pub struct Latch {
    pub fired: bool,
}

impl Latch {
    pub fn new() -> (r: Latch)
        ensures
            !r.fired,
    {
        Latch { fired: false }
    }

    /// Pass the crash point `name`. It stops the caller when `armed` names it
    /// and it never fired before, and passes everyone else.
    pub fn fire(&mut self, armed: &Option<String>, name: &str, stopped: &str) -> (r: Result<
        (),
        Status,
    >)
        ensures
            ({
                let named = *armed is Some && (*armed)->0@ == name@;
                &&& final(self).fired == (old(self).fired || named)
                &&& if named && !old(self).fired {
                    status::refused_as(r, status::refusal(Code::Internal, stopped@))
                } else {
                    r is Ok
                }
            }),
    {
        let named = match armed {
            Some(a) => text::same(a.as_str(), name),
            None => false,
        };
        if !named || self.fired {
            return Ok(());
        }
        self.fired = true;
        Err(Status::internal(stopped.to_owned()))
    }
}

// ---------------------------------------------------------------------------
// The leader's half
// ---------------------------------------------------------------------------

/// Where a transfer stands.
#[derive(Debug, Clone, Copy, PartialEq, Eq, Structural)]
pub enum KeyStage {
    /// The leader's own key is to be loaded.
    Load,
    /// The intent is to be proposed.
    RecordIntent,
    /// The intent is to become visible.
    AwaitIntent,
    /// The key is to be sent.
    Send,
    /// Possession is to be confirmed.
    Confirm,
    /// The confirmation is to become visible.
    AwaitConfirmation,
    /// Nothing is left to do.
    Over,
}

/// What a transfer does next.
#[derive(Debug)]
pub enum KeyStep {
    /// The transfer is over.
    Reply(Result<(), Status>),
    /// Load this leader's own key, held against the replicated certificate.
    LoadOwnKey { ca_pem: Vec<u8> },
    /// Propose the intent to key `candidate`; the key goes to this address
    /// afterwards.
    RecordIntent { candidate: u64, address: String },
    /// Wait until the published view holds this log index.
    AwaitIntent { address: String, index: u64 },
    /// Send the key to this address, under this history.
    Send { address: String, history_id: Vec<u8> },
    /// Propose the confirmation that `candidate` holds the key.
    Confirm { candidate: u64 },
    /// Wait until the published view holds this log index.
    AwaitConfirmation(u64),
}

impl KeyStep {
    pub open spec fn stage(self) -> KeyStage {
        match self {
            KeyStep::Reply(_) => KeyStage::Over,
            KeyStep::LoadOwnKey { .. } => KeyStage::Load,
            KeyStep::RecordIntent { .. } => KeyStage::RecordIntent,
            KeyStep::AwaitIntent { .. } => KeyStage::AwaitIntent,
            KeyStep::Send { .. } => KeyStage::Send,
            KeyStep::Confirm { .. } => KeyStage::Confirm,
            KeyStep::AwaitConfirmation(_) => KeyStage::AwaitConfirmation,
        }
    }
}

/// Whether `next` may come right after `stage`, given whether the intent was
/// on record when the transfer began. Any stage may end the transfer.
pub open spec fn follows(intended: bool, stage: KeyStage, next: KeyStage) -> bool {
    match stage {
        KeyStage::Load => next == (if intended {
            KeyStage::Send
        } else {
            KeyStage::RecordIntent
        }) || next == KeyStage::Over,
        KeyStage::RecordIntent => next == KeyStage::AwaitIntent || next == KeyStage::Over,
        KeyStage::AwaitIntent => next == KeyStage::Send || next == KeyStage::Over,
        KeyStage::Send => next == KeyStage::Confirm || next == KeyStage::Over,
        KeyStage::Confirm => next == KeyStage::AwaitConfirmation || next == KeyStage::Over,
        KeyStage::AwaitConfirmation => next == KeyStage::Over,
        KeyStage::Over => false,
    }
}

/// Whether this step sends the key to `address` under the history of `seam`.
pub open spec fn sends(step: KeyStep, seam: Seam, address: Seq<char>) -> bool {
    step matches KeyStep::Send { address: to, history_id } && to@ == address && history_id@
        == seam.history_id@
}

/// The reply that ends a transfer with a refusal.
pub open spec fn ends_with(step: KeyStep, s: StatusView) -> bool {
    step matches KeyStep::Reply(reply) && status::refused_as(reply, s)
}

/// Begin to key `candidate`. There is nothing to do when it already confirmed
/// receipt, nor when the cluster does not own its trust root.
pub fn ensure_key_transferred(seam: &Seam, candidate: u64) -> (r: KeyStep)
    ensures
        if seam.state.confirmed(candidate) {
            r matches KeyStep::Reply(reply) && reply is Ok
        } else {
            match seam.state.ca_pem {
                None => r matches KeyStep::Reply(reply) && reply is Ok,
                Some(ca) => r matches KeyStep::LoadOwnKey { ca_pem } && ca_pem@ == ca@,
            }
        },
{
    if seam.state.has_key_confirmation(candidate) {
        return KeyStep::Reply(Ok(()));
    }
    match &seam.state.ca_pem {
        None => KeyStep::Reply(Ok(())),
        Some(ca) => KeyStep::LoadOwnKey { ca_pem: copy_bytes(ca) },
    }
}

/// The refusal of a leader that cannot read its own key.
pub open spec fn keyless_refusal(candidate: u64, error: Seq<char>) -> StatusView {
    status::refusal(
        Code::FailedPrecondition,
        KEY_UNAVAILABLE@ + ": this leader cannot read its own CA key, so it cannot key node "@
            + text::decimal(candidate as nat) + " for promotion: "@ + error
            + ". Repair custody on this node's data directory (ADR 0037 §4)"@,
    )
}

/// The refusal of a candidate that is not in membership.
pub open spec fn addressless_refusal(candidate: u64) -> StatusView {
    status::refusal(
        Code::NotFound,
        UNKNOWN_NODE@ + ": node "@ + text::decimal(candidate as nat)
            + " is not in membership, so there is no address to transfer the CA key to "@
            + "(ADR 0037 §6)"@,
    )
}

/// The leader's own key was loaded, or not. A key that is missing, readable by
/// others or not the cluster's is for an operator to repair.
pub fn on_own_key(seam: &Seam, candidate: u64, loaded: Result<(), String>) -> (r: KeyStep)
    ensures
        follows(seam.state.intended(candidate), KeyStage::Load, r.stage()),
        match loaded {
            Err(e) => ends_with(r, keyless_refusal(candidate, e@)),
            Ok(_) => if !seam.summary.seats(candidate) {
                ends_with(r, addressless_refusal(candidate))
            } else {
                let addr = seam.summary.members@[seam.summary.seat_of(candidate)].addr@;
                if seam.state.intended(candidate) {
                    sends(r, *seam, addr)
                } else {
                    r matches KeyStep::RecordIntent { candidate: c, address } && c == candidate
                        && address@ == addr
                }
            },
        },
{
    if let Err(e) = loaded {
        return KeyStep::Reply(
            Err(
                Status::failed_precondition(
                    KEY_UNAVAILABLE.to_owned().concat(
                        ": this leader cannot read its own CA key, so it cannot key node ",
                    ).concat(decimal_text(candidate).as_str()).concat(" for promotion: ").concat(
                        e.as_str(),
                    ).concat(". Repair custody on this node's data directory (ADR 0037 §4)"),
                ),
            ),
        );
    }
    let at = match seam.summary.find(candidate) {
        Some(at) => at,
        None => return KeyStep::Reply(
            Err(
                Status::not_found(
                    UNKNOWN_NODE.to_owned().concat(": node ").concat(
                        decimal_text(candidate).as_str(),
                    ).concat(
                        " is not in membership, so there is no address to transfer the CA key to ",
                    ).concat("(ADR 0037 §6)"),
                ),
            ),
        ),
    };
    let address = seam.summary.members[at].addr.clone();
    if seam.state.has_key_transfer_intent(candidate) {
        KeyStep::Send { address, history_id: copy_bytes(&seam.history_id) }
    } else {
        KeyStep::RecordIntent { candidate, address }
    }
}

/// The refusal of a rejected intent.
pub open spec fn intent_rejected(candidate: u64, reason: Seq<char>) -> StatusView {
    status::refusal(
        Code::Internal,
        "recording the key-transfer intent for node "@ + text::decimal(candidate as nat)
            + " was rejected: "@ + reason,
    )
}

/// The intent was proposed.
pub fn on_intent_applied(
    candidate: u64,
    address: String,
    applied: Result<Applied, ConsensusError>,
) -> (r: KeyStep)
    ensures
        follows(false, KeyStage::RecordIntent, r.stage()),
        match applied {
            Err(e) => ends_with(r, refusals::consensus_refusal(e)),
            Ok(Applied::At(i)) => r == (KeyStep::AwaitIntent { address, index: i }),
            Ok(Applied::Rejected { reason, .. }) => ends_with(
                r,
                intent_rejected(candidate, reason@),
            ),
        },
{
    match applied {
        Err(e) => KeyStep::Reply(Err(consensus_error_to_status(&e))),
        Ok(Applied::At(index)) => KeyStep::AwaitIntent { address, index },
        Ok(Applied::Rejected { reason, .. }) => KeyStep::Reply(
            Err(
                Status::internal(
                    "recording the key-transfer intent for node ".to_owned().concat(
                        decimal_text(candidate).as_str(),
                    ).concat(" was rejected: ").concat(reason.as_str()),
                ),
            ),
        ),
    }
}

/// The published view shows the intent, or the wait failed. Only now may the
/// key leave this disk.
pub fn on_intent_visible(
    seam: &Seam,
    address: String,
    visible: Result<(), ConsensusError>,
) -> (r: KeyStep)
    ensures
        follows(false, KeyStage::AwaitIntent, r.stage()),
        match visible {
            Ok(_) => sends(r, *seam, address@),
            Err(e) => ends_with(r, refusals::consensus_refusal(e)),
        },
{
    match visible {
        Ok(_) => KeyStep::Send { address, history_id: copy_bytes(&seam.history_id) },
        Err(e) => KeyStep::Reply(Err(consensus_error_to_status(&e))),
    }
}

/// What sending the key came to.
#[derive(Debug, Clone)]
pub enum KeySent {
    /// The candidate could not be dialled.
    Undialled(String),
    /// It was dialled and refused the key.
    Refused(String),
    /// It acknowledged a durable write.
    Acknowledged,
}

/// The key was sent, or not. `crash` is what the crash point after the
/// acknowledgement said.
pub fn on_key_sent(candidate: u64, address: &str, sent: KeySent, crash: Result<(), Status>) -> (r:
    KeyStep)
    ensures
        follows(false, KeyStage::Send, r.stage()),
        match sent {
            KeySent::Undialled(e) => ends_with(
                r,
                refusals::endpoint_unverified(
                    "dialing "@ + address@ + " to transfer the CA key: "@ + e@,
                ),
            ),
            KeySent::Refused(e) => ends_with(
                r,
                refusals::endpoint_unverified(
                    "transferring the CA key to "@ + address@ + ": "@ + e@,
                ),
            ),
            KeySent::Acknowledged => match crash {
                Ok(_) => r == (KeyStep::Confirm { candidate }),
                Err(s) => ends_with(r, s@),
            },
        },
{
    match sent {
        KeySent::Undialled(e) => KeyStep::Reply(
            Err(
                endpoint_unverified_status(
                    "dialing ".to_owned().concat(address).concat(
                        " to transfer the CA key: ",
                    ).concat(e.as_str()).as_str(),
                ),
            ),
        ),
        KeySent::Refused(e) => KeyStep::Reply(
            Err(
                endpoint_unverified_status(
                    "transferring the CA key to ".to_owned().concat(address).concat(": ").concat(
                        e.as_str(),
                    ).as_str(),
                ),
            ),
        ),
        KeySent::Acknowledged => match crash {
            Ok(_) => KeyStep::Confirm { candidate },
            Err(s) => KeyStep::Reply(Err(s)),
        },
    }
}

/// The refusal of a rejected confirmation.
pub open spec fn confirmation_rejected(candidate: u64, reason: Seq<char>) -> StatusView {
    status::refusal(
        Code::FailedPrecondition,
        "node "@ + text::decimal(candidate as nat)
            + " confirmed durable receipt of the CA key, but recording the possession fact "@
            + "was rejected: "@ + reason,
    )
}

/// The confirmation was proposed.
pub fn on_confirmation_applied(candidate: u64, applied: Result<Applied, ConsensusError>) -> (r:
    KeyStep)
    ensures
        follows(false, KeyStage::Confirm, r.stage()),
        match applied {
            Err(e) => ends_with(r, refusals::consensus_refusal(e)),
            Ok(Applied::At(i)) => r == KeyStep::AwaitConfirmation(i),
            Ok(Applied::Rejected { reason, .. }) => ends_with(
                r,
                confirmation_rejected(candidate, reason@),
            ),
        },
{
    match applied {
        Err(e) => KeyStep::Reply(Err(consensus_error_to_status(&e))),
        Ok(Applied::At(index)) => KeyStep::AwaitConfirmation(index),
        Ok(Applied::Rejected { reason, .. }) => KeyStep::Reply(
            Err(
                Status::failed_precondition(
                    "node ".to_owned().concat(decimal_text(candidate).as_str()).concat(
                        " confirmed durable receipt of the CA key, but recording the possession fact ",
                    ).concat("was rejected: ").concat(reason.as_str()),
                ),
            ),
        ),
    }
}

/// The published view shows the confirmation, or the wait failed. The joint
/// change that follows reads that view.
pub fn on_confirmation_visible(visible: Result<(), ConsensusError>) -> (r: KeyStep)
    ensures
        follows(false, KeyStage::AwaitConfirmation, r.stage()),
        match visible {
            Ok(_) => r matches KeyStep::Reply(reply) && reply is Ok,
            Err(e) => ends_with(r, refusals::consensus_refusal(e)),
        },
{
    match visible {
        Ok(_) => KeyStep::Reply(Ok(())),
        Err(e) => KeyStep::Reply(Err(consensus_error_to_status(&e))),
    }
}

/// Whether these are the stages of one transfer, in order.
pub open spec fn transfer_run(intended: bool, run: Seq<KeyStage>) -> bool {
    &&& run.len() > 0
    &&& run[0] == KeyStage::Load
    &&& forall|i: int|
        0 <= i < run.len() - 1 ==> follows(intended, #[trigger] run[i], run[i + 1])
}

/// No key byte leaves the leader before the intent is visible: in any run of a
/// transfer whose intent was not on record when it began, the key is sent only
/// after the wait for the intent.
pub proof fn intent_is_visible_before_the_key_leaves(run: Seq<KeyStage>, at: int)
    requires
        transfer_run(false, run),
        0 <= at < run.len(),
        run[at] == KeyStage::Send,
    ensures
        at >= 1,
        run[at - 1] == KeyStage::AwaitIntent,
{
    assert(at >= 1);
    assert(follows(false, run[at - 1], run[at - 1 + 1]));
}

/// Possession is confirmed right after the candidate was sent the key and
/// acknowledged it.
pub proof fn confirmation_follows_the_key(intended: bool, run: Seq<KeyStage>, at: int)
    requires
        transfer_run(intended, run),
        0 <= at < run.len(),
        run[at] == KeyStage::Confirm,
    ensures
        at >= 1,
        run[at - 1] == KeyStage::Send,
{
    assert(at >= 1);
    assert(follows(intended, run[at - 1], run[at - 1 + 1]));
}

// ---------------------------------------------------------------------------
// The candidate's half
// ---------------------------------------------------------------------------

/// How long a candidate waits for the replicated certificate, in milliseconds.
pub const CA_VISIBILITY_WAIT_MS: u64 = 5_000;

/// How often it looks, in milliseconds.
pub const CA_VISIBILITY_POLL_MS: u64 = 25;

/// What the wait for the replicated certificate does after one look.
#[derive(Debug, Clone, Copy, PartialEq, Eq, Structural)]
pub enum CaWait {
    Found,
    GaveUp,
    /// Look again after this many milliseconds.
    Sleep(u64),
}

/// One look at the replicated certificate, `waited` after the wait began.
pub fn replicated_ca(present: bool, waited: Duration) -> (r: CaWait)
    ensures
        r == (if present {
            CaWait::Found
        } else if waited@ >= CA_VISIBILITY_WAIT_MS * 1_000_000 {
            CaWait::GaveUp
        } else {
            CaWait::Sleep(CA_VISIBILITY_POLL_MS)
        }),
{
    if present {
        CaWait::Found
    } else if Duration::from_millis(CA_VISIBILITY_WAIT_MS).at_most(&waited) {
        CaWait::GaveUp
    } else {
        CaWait::Sleep(CA_VISIBILITY_POLL_MS)
    }
}

/// What receiving a key does next.
#[derive(Debug)]
pub enum ReceiptStep {
    /// The verb is over.
    Reply(Result<(), Status>),
    /// Wait for the replicated certificate.
    AwaitCa,
    /// Look on this disk for a valid key of the replicated certificate.
    LookForKey { ca_pem: Vec<u8> },
    /// Hold the received key against the replicated certificate.
    MatchKey { ca_pem: Vec<u8> },
    /// Write the key, owner-only and durably.
    WriteKey,
}

/// The seat a caller is bound to, as a refusal names it.
pub open spec fn seat_text(bound: Option<u64>) -> Seq<char> {
    match bound {
        Some(n) => "node "@ + text::decimal(n as nat),
        None => "no seat"@,
    }
}

/// The refusal of a pusher that is not the leader this replica observes, if it
/// is one to refuse.
pub open spec fn pusher_refusal(seam: Seam, caller: Caller) -> Option<StatusView> {
    match caller {
        Caller::Machine(machine) => match seam.summary.leader {
            None => Some(
                status::refusal(
                    Code::FailedPrecondition,
                    "this replica does not currently know a leader, so it cannot verify the "@
                        + "key transfer came from one — retry (ADR 0037 §4)"@,
                ),
            ),
            Some(leader) => if seam.state.bound_seat(machine) == Some(leader) {
                None
            } else {
                Some(
                    status::refusal(
                        Code::PermissionDenied,
                        NOT_AUTHORIZED@ + ": "@ + caller.described() + " is bound to "@
                            + seat_text(seam.state.bound_seat(machine))
                            + " but the leader this replica observes is node "@
                            + text::decimal(leader as nat)
                            + "; only the leader transfers the CA key (ADR 0037 §4)"@,
                    ),
                )
            },
        },
        _ => Some(
            status::refusal(
                Code::PermissionDenied,
                NOT_AUTHORIZED@ + ": "@ + caller.described()
                    + " may not push the cluster CA key; the transfer protocol is "@
                    + "leader-to-candidate only (ADR 0037 §4)"@,
            ),
        ),
    }
}

fn pusher_status(seam: &Seam, caller: &Caller) -> (r: Result<(), Status>)
    ensures
        match pusher_refusal(*seam, *caller) {
            Some(s) => status::refused_as(r, s),
            None => r is Ok,
        },
{
    let machine: MachineId = match caller {
        Caller::Machine(machine) => *machine,
        _ => return Err(
            Status::permission_denied(
                NOT_AUTHORIZED.to_owned().concat(": ").concat(caller.describe().as_str()).concat(
                    " may not push the cluster CA key; the transfer protocol is ",
                ).concat("leader-to-candidate only (ADR 0037 §4)"),
            ),
        ),
    };
    let bound = seam.state.seat_of_machine(machine);
    let leader = match seam.summary.leader {
        Some(leader) => leader,
        None => return Err(
            Status::failed_precondition(
                "this replica does not currently know a leader, so it cannot verify the ".to_owned().concat(
                    "key transfer came from one — retry (ADR 0037 §4)",
                ),
            ),
        ),
    };
    let seat = match bound {
        Some(n) => {
            if n == leader {
                return Ok(());
            }
            "node ".to_owned().concat(decimal_text(n).as_str())
        },
        None => "no seat".to_owned(),
    };
    Err(
        Status::permission_denied(
            NOT_AUTHORIZED.to_owned().concat(": ").concat(caller.describe().as_str()).concat(
                " is bound to ",
            ).concat(seat.as_str()).concat(
                " but the leader this replica observes is node ",
            ).concat(decimal_text(leader).as_str()).concat(
                "; only the leader transfers the CA key (ADR 0037 §4)",
            ),
        ),
    )
}

impl AdminService {
    /// Begin to receive the key. The one accepted caller is the machine bound
    /// to the seat this replica observes as leader: no one else's transfer is
    /// followed by the replicated possession fact.
    pub fn transfer_ca_key(&self, caller: &Caller, history: &Vec<u8>) -> (r: ReceiptStep)
        ensures
            match self.barred(Verb::TransferCaKey, *caller, history@) {
                Some(s) => r matches ReceiptStep::Reply(reply) && status::refused_as(reply, s),
                None => match pusher_refusal(self.seam->0, *caller) {
                    Some(s) => r matches ReceiptStep::Reply(reply) && status::refused_as(reply, s),
                    None => r is AwaitCa,
                },
            },
    {
        let seam = match self.gate(Verb::TransferCaKey, caller, history) {
            Ok(seam) => seam,
            Err(e) => return ReceiptStep::Reply(Err(e)),
        };
        match pusher_status(seam, caller) {
            Ok(_) => ReceiptStep::AwaitCa,
            Err(e) => ReceiptStep::Reply(Err(e)),
        }
    }
}

/// The wait for the replicated certificate ended with what it found.
pub fn on_replicated_ca(found: Option<Vec<u8>>) -> (r: ReceiptStep)
    ensures
        match found {
            Some(ca) => r matches ReceiptStep::LookForKey { ca_pem } && ca_pem@ == ca@,
            None => r matches ReceiptStep::Reply(reply) && status::refused_as(
                reply,
                status::refusal(
                    Code::FailedPrecondition,
                    "this cluster has no replicated CA certificate to check a transferred key "@
                        + "against (ADR 0037 §4)"@,
                ),
            ),
        },
{
    match found {
        Some(ca_pem) => ReceiptStep::LookForKey { ca_pem },
        None => ReceiptStep::Reply(
            Err(
                Status::failed_precondition(
                    "this cluster has no replicated CA certificate to check a transferred key ".to_owned().concat(
                        "against (ADR 0037 §4)",
                    ),
                ),
            ),
        ),
    }
}

/// This disk was looked at. A valid key of the certificate there is the state
/// asked for; without one, the received key is held against the certificate.
pub fn on_key_looked_for(ca_pem: Vec<u8>, held: bool) -> (r: ReceiptStep)
    ensures
        held ==> (r matches ReceiptStep::Reply(reply) && reply is Ok),
        !held ==> (r matches ReceiptStep::MatchKey { ca_pem: against } && against@ == ca_pem@),
{
    if held {
        ReceiptStep::Reply(Ok(()))
    } else {
        ReceiptStep::MatchKey { ca_pem }
    }
}

/// The received key was held against the certificate. One that does not match
/// must never overwrite custody.
pub fn on_key_matched(matches: bool) -> (r: ReceiptStep)
    ensures
        matches ==> r is WriteKey,
        !matches ==> (r matches ReceiptStep::Reply(reply) && status::refused_as(
            reply,
            status::refusal(
                Code::InvalidArgument,
                "the transferred key does not match this cluster's CA certificate "@
                    + "(ADR 0037 §4)"@,
            ),
        )),
{
    if matches {
        ReceiptStep::WriteKey
    } else {
        ReceiptStep::Reply(
            Err(
                Status::invalid_argument(
                    "the transferred key does not match this cluster's CA certificate ".to_owned().concat(
                        "(ADR 0037 §4)",
                    ),
                ),
            ),
        )
    }
}

/// The key was written, or not.
pub fn on_key_written(written: Result<(), String>) -> (r: Result<(), Status>)
    ensures
        match written {
            Ok(_) => r is Ok,
            Err(e) => status::refused_as(
                r,
                status::refusal(
                    Code::Internal,
                    "persisting the transferred CA key: "@ + e@,
                ),
            ),
        },
{
    match written {
        Ok(_) => Ok(()),
        Err(e) => Err(
            Status::internal(
                "persisting the transferred CA key: ".to_owned().concat(e.as_str()),
            ),
        ),
    }
}

/// Only the observed leader's own machine can put a key on this disk: whoever
/// else asks is refused before the certificate is even looked at.
pub proof fn only_the_leader_pushes(service: AdminService, caller: Caller, history: Seq<u8>)
    requires
        service.barred(Verb::TransferCaKey, caller, history) is None,
        pusher_refusal(service.seam->0, caller) is None,
    ensures
        caller is Machine,
        service.seam->0.summary.leader is Some,
        service.seam->0.state.bound_seat(caller->Machine_0) == service.seam->0.summary.leader,
{
}

/// The converse: the machine bound to the seat of the leader this replica
/// observes always gets through, whether the receiving replica votes or still
/// learns, and nobody else ever does.
pub proof fn the_leaders_machine_is_received(
    service: AdminService,
    seam: Seam,
    caller: Caller,
    history: Vec<u8>,
    r: ReceiptStep,
)
    requires
        call_ensures(AdminService::transfer_ca_key, (&service, &caller, &history), r),
        service.seam == Some(seam),
        history@ == seam.history_id@,
        history@.len() == 16,
    ensures
        r is AwaitCa <==> (caller matches Caller::Machine(m) && seam.summary.leader is Some
            && seam.state.bound_seat(m) == seam.summary.leader),
        !(r is AwaitCa) ==> (r matches ReceiptStep::Reply(Err(e)) && (e@.code
            == Code::PermissionDenied || seam.summary.leader is None)),
        !(caller is Machine) ==> (r matches ReceiptStep::Reply(Err(e)) && e@.code
            == Code::PermissionDenied),
        caller is Machine && seam.summary.leader is None ==> (r matches ReceiptStep::Reply(Err(e))
            && e@.code == Code::FailedPrecondition),
{
}

/// A candidate is keyed unless it confirmed receipt already or the cluster
/// holds no root of its own, and the key that is loaded is the recorded
/// root's.
pub proof fn a_candidate_is_keyed_unless_confirmed(
    seam: Seam,
    candidate: u64,
    loaded: Result<(), String>,
    r: KeyStep,
    next: KeyStep,
)
    requires
        call_ensures(ensure_key_transferred, (&seam, candidate), r),
        call_ensures(on_own_key, (&seam, candidate, loaded), next),
    ensures
        r is LoadOwnKey <==> seam.state.ca_pem is Some && forall|i: int|
            0 <= i < seam.state.key_confirmations@.len() ==> (
            #[trigger] seam.state.key_confirmations@[i]).0 != candidate,
        r matches KeyStep::LoadOwnKey { ca_pem } ==> ca_pem@ == seam.state.ca_pem->0@,
        !(r is LoadOwnKey) ==> r matches KeyStep::Reply(Ok(_)),
        // A leader without its own key keys no one; nor is a stranger keyed.
        loaded is Err ==> (next matches KeyStep::Reply(Err(e)) && e@.code
            == Code::FailedPrecondition),
        loaded is Ok && !seam.summary.seats(candidate) ==> (next matches KeyStep::Reply(Err(e))
            && e@.code == Code::NotFound),
        // The key goes to the candidate's own address, at once only where the
        // intent is on record.
        loaded is Ok && seam.summary.seats(candidate) ==> {
            let addr = seam.summary.members@[seam.summary.seat_of(candidate)].addr@;
            let recorded = exists|i: int|
                0 <= i < seam.state.key_transfer_intents@.len() && (
                #[trigger] seam.state.key_transfer_intents@[i]).0 == candidate;
            &&& recorded ==> (next matches KeyStep::Send { address, history_id } && address@ == addr
                && history_id@ == seam.history_id@)
            &&& !recorded ==> (next matches KeyStep::RecordIntent { candidate: c, address } && c
                == candidate && address@ == addr)
        },
{
}

/// Each step of a transfer goes on only from success, and carries on what the
/// step before was about.
pub proof fn a_transfer_goes_on_only_from_success(
    seam: Seam,
    candidate: u64,
    address: String,
    target: &str,
    intent: Result<Applied, ConsensusError>,
    shown: Result<(), ConsensusError>,
    sent: KeySent,
    crash: Result<(), Status>,
    confirmed: Result<Applied, ConsensusError>,
    a: KeyStep,
    b: KeyStep,
    c: KeyStep,
    d: KeyStep,
    e: KeyStep,
)
    requires
        call_ensures(on_intent_applied, (candidate, address, intent), a),
        call_ensures(on_intent_visible, (&seam, address, shown), b),
        call_ensures(on_key_sent, (candidate, target, sent, crash), c),
        call_ensures(on_confirmation_applied, (candidate, confirmed), d),
        call_ensures(on_confirmation_visible, (shown,), e),
    ensures
        intent matches Ok(Applied::At(i)) ==> a == (KeyStep::AwaitIntent { address, index: i }),
        !(intent matches Ok(Applied::At(_))) ==> a matches KeyStep::Reply(Err(_)),
        shown is Ok ==> (b matches KeyStep::Send { address: to, history_id } && to@ == address@
            && history_id@ == seam.history_id@),
        shown is Err ==> b matches KeyStep::Reply(Err(_)),
        sent is Acknowledged && crash is Ok ==> c == (KeyStep::Confirm { candidate }),
        !(sent is Acknowledged && crash is Ok) ==> c matches KeyStep::Reply(Err(_)),
        confirmed matches Ok(Applied::At(i)) ==> d == KeyStep::AwaitConfirmation(i),
        !(confirmed matches Ok(Applied::At(_))) ==> d matches KeyStep::Reply(Err(_)),
        shown is Ok ==> e matches KeyStep::Reply(Ok(_)),
        shown is Err ==> e matches KeyStep::Reply(Err(_)),
{
}

/// A received key is written only after it matched the recorded root, a valid
/// key already there is left alone, and what cannot be checked is refused.
pub proof fn a_key_is_written_only_if_it_matches(
    found: Option<Vec<u8>>,
    ca: Vec<u8>,
    held: bool,
    matching: bool,
    written: Result<(), String>,
    a: ReceiptStep,
    b: ReceiptStep,
    c: ReceiptStep,
    d: Result<(), Status>,
)
    requires
        call_ensures(on_replicated_ca, (found,), a),
        call_ensures(on_key_looked_for, (ca, held), b),
        call_ensures(on_key_matched, (matching,), c),
        call_ensures(on_key_written, (written,), d),
    ensures
        found is Some ==> (a matches ReceiptStep::LookForKey { ca_pem } && ca_pem@ == found->0@),
        found is None ==> (a matches ReceiptStep::Reply(Err(e)) && e@.code
            == Code::FailedPrecondition),
        held ==> b matches ReceiptStep::Reply(Ok(_)),
        !held ==> (b matches ReceiptStep::MatchKey { ca_pem } && ca_pem@ == ca@),
        matching ==> c is WriteKey,
        !matching ==> (c matches ReceiptStep::Reply(Err(e)) && e@.code == Code::InvalidArgument),
        written is Ok <==> d is Ok,
        d matches Err(e) ==> e@.code == Code::Internal,
{
}

/// A candidate waits five seconds for the root to be replicated, looking again
/// every twenty-five milliseconds, and no longer than it has to.
pub proof fn the_root_is_waited_for_five_seconds(present: bool, waited: Duration, r: CaWait)
    requires
        call_ensures(replicated_ca, (present, waited), r),
    ensures
        r is Found <==> present,
        r is GaveUp <==> !present && waited@ >= 5_000_000_000,
        r is Sleep <==> !present && waited@ < 5_000_000_000,
        r matches CaWait::Sleep(ms) ==> ms == 25,
{
}

/// A crash point stops exactly the first caller that passes it while it is
/// armed under its own name, and nobody after.
pub proof fn a_crash_point_fires_once(
    latch: &mut Latch,
    armed: Option<String>,
    name: &str,
    stopped: &str,
    r: Result<(), Status>,
)
    requires
        call_ensures(Latch::fire, (latch, &armed, name, stopped), r),
    ensures
        r is Err <==> armed is Some && armed->0@ == name@ && !old(latch).fired,
        r is Err ==> final(latch).fired,
        old(latch).fired ==> final(latch).fired && r is Ok,
        armed is None ==> r is Ok && final(latch).fired == old(latch).fired,
{
}

} // verus!
