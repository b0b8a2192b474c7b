//! Serving the public client listener: plain, or behind a certificate that is
//! resolved anew at each connection.
//!
//! Client certificates are requested and never required, and only where there
//! is a cluster CA to judge them by.

use vstd::prelude::*;

use crate::wire::copy_bytes;

verus! {

/// Handshakes that stall are dropped after this many seconds.
pub const HANDSHAKE_TIMEOUT_SECS: u64 = 15;

/// How long the listener waits after a failed accept, in milliseconds.
pub const ACCEPT_BACKOFF_MS: u64 = 20;

/// The cluster CA as the client listener sees it: a reader of the anchor of
/// client certificates. It is asked at each connection, since the answer
/// changes: there is none before a cluster is formed, and a re-root gives
/// another.
#[derive(Clone)]
pub struct ClusterCa<F> {
    pub reader: F,
}

/// Whether an answer is this anchor.
pub open spec fn is_anchor(answer: Option<Vec<u8>>, anchor: Option<Seq<u8>>) -> bool {
    match anchor {
        Some(pem) => answer matches Some(bytes) && bytes@ == pem,
        None => answer is None,
    }
}

impl ClusterCa<()> {
    /// A constant anchor, for a caller that already holds the bundle.
    pub fn fixed(ca_pem: Vec<u8>) -> (r: ClusterCa<impl Fn() -> Option<Vec<u8>>>)
        ensures
            r.only_gives(Some(ca_pem@)),
    {
        let reader = move || -> (a: Option<Vec<u8>>)
            ensures
                is_anchor(a, Some(ca_pem@)),
            { Some(copy_bytes(&ca_pem)) };
        ClusterCa { reader }
    }

    /// No anchor: a daemon without a cluster cannot judge a client
    /// certificate, and asks for none.
    pub fn none() -> (r: ClusterCa<impl Fn() -> Option<Vec<u8>>>)
        ensures
            r.only_gives(None),
    {
        let reader = || -> (a: Option<Vec<u8>>)
            ensures
                is_anchor(a, None),
            { None };
        ClusterCa { reader }
    }
}

impl<F: Fn() -> Option<Vec<u8>>> ClusterCa<F> {
    /// Whether the reader can be asked at any time, and always answers alike.
    pub open spec fn only_gives(self, anchor: Option<Seq<u8>>) -> bool {
        &&& self.reader.requires(())
        &&& forall|a: Option<Vec<u8>>| #[trigger] self.reader.ensures((), a) ==> is_anchor(a, anchor)
    }

    /// The anchor the replicated views hold, as `views` reads it.
    pub fn from_views(views: F) -> (r: ClusterCa<F>)
        ensures
            r.reader == views,
    {
        ClusterCa { reader: views }
    }

    /// The anchor of a connection that is accepted now.
    pub fn current(&self) -> (r: Option<Vec<u8>>)
        requires
            self.reader.requires(()),
        ensures
            self.reader.ensures((), r),
    {
        (self.reader)()
    }

    /// The same reader, for the authentication chain to ask request by
    /// request. Being the same, it cannot disagree with the listener across a
    /// re-root.
    pub fn provider(&self) -> (f: &F)
        ensures
            *f == self.reader,
    {
        &self.reader
    }
}

/// A fixed anchor is the same bytes every time, whoever asks: the listener
/// through [`ClusterCa::current`], or the authentication chain through
/// [`ClusterCa::provider`].
pub proof fn a_fixed_anchor_never_changes<F: Fn() -> Option<Vec<u8>>>(
    ca: ClusterCa<F>,
    pem: Seq<u8>,
    provider: F,
    first: Option<Vec<u8>>,
    second: Option<Vec<u8>>,
)
    requires
        ca.only_gives(Some(pem)),
        provider == ca.reader,
        ca.reader.ensures((), first),
        provider.ensures((), second),
    ensures
        first is Some && first->0@ == pem,
        second is Some && second->0@ == pem,
{
}

/// Without an anchor neither is ever given one.
pub proof fn no_anchor_is_never_given<F: Fn() -> Option<Vec<u8>>>(
    ca: ClusterCa<F>,
    provider: F,
    first: Option<Vec<u8>>,
    second: Option<Vec<u8>>,
)
    requires
        ca.only_gives(None),
        provider == ca.reader,
        ca.reader.ensures((), first),
        provider.ensures((), second),
    ensures
        first is None,
        second is None,
{
}

/// The listener and the authentication chain never disagree: whatever the
/// replicated views hold, and however that changes, an answer one of them can
/// be given the other can be given too.
pub proof fn the_listener_and_the_chain_agree<F: Fn() -> Option<Vec<u8>>>(
    ca: ClusterCa<F>,
    views: F,
    provider: F,
    answer: Option<Vec<u8>>,
)
    requires
        ca.reader == views,
        provider == ca.reader,
    ensures
        ca.reader.ensures((), answer) <==> provider.ensures((), answer),
        provider.ensures((), answer) <==> views.ensures((), answer),
{
}

/// What the accept loop hears.
#[derive(Debug, Clone, Copy, PartialEq, Eq, Structural)]
pub enum AcceptEvent {
    Stop,
    /// A connection, and whether its serving material could be assembled.
    Connection { configured: bool },
    /// The accept itself failed.
    Failed,
}

/// What the accept loop does.
#[derive(Debug, Clone, Copy, PartialEq, Eq, Structural)]
pub enum AcceptStep {
    /// Stop accepting, and tell the open connections to finish.
    Drain,
    /// Serve the connection in a task of its own.
    Serve,
    /// Drop the connection and go on.
    Drop,
    /// Wait this many milliseconds and go on.
    BackOff(u64),
}

/// What the accept loop does about an event. Only being told to stop ends it:
/// neither a bad connection nor a failed accept takes the listener down.
pub fn serve_tls(event: AcceptEvent) -> (r: AcceptStep)
    ensures
        r == (match event {
            AcceptEvent::Stop => AcceptStep::Drain,
            AcceptEvent::Connection { configured } => if configured {
                AcceptStep::Serve
            } else {
                AcceptStep::Drop
            },
            AcceptEvent::Failed => AcceptStep::BackOff(ACCEPT_BACKOFF_MS),
        }),
{
    match event {
        AcceptEvent::Stop => AcceptStep::Drain,
        AcceptEvent::Connection { configured } => if configured {
            AcceptStep::Serve
        } else {
            AcceptStep::Drop
        },
        AcceptEvent::Failed => AcceptStep::BackOff(ACCEPT_BACKOFF_MS),
    }
}

/// What a listener that stopped accepting does.
#[derive(Debug, Clone, Copy, PartialEq, Eq, Structural)]
pub enum DrainStep {
    /// Wait until a connection ends, and look again.
    Wait,
    /// Serving has drained: return.
    Return,
}

/// What a listener that stopped accepting does while `open` connections are
/// left. Serving returns only once the last has ended.
pub fn drain(open: usize) -> (r: DrainStep)
    ensures
        r == (if open == 0 {
            DrainStep::Return
        } else {
            DrainStep::Wait
        }),
{
    if open == 0 {
        DrainStep::Return
    } else {
        DrainStep::Wait
    }
}

/// How a handshake ended.
#[derive(Debug, Clone)]
pub enum Handshake {
    /// It completed; the certificates the peer presented, if it took up the
    /// request.
    Completed(Option<Vec<Vec<u8>>>),
    Failed,
    TimedOut,
}

/// What handlers are shown of a connection: whether to serve it at all, and
/// the certificates its requests carry.
pub fn serve_connection(handshake: Handshake) -> (r: Option<Option<Vec<Vec<u8>>>>)
    ensures
        r == (match handshake {
            Handshake::Completed(certs) => Some(certs),
            _ => None,
        }),
{
    match handshake {
        Handshake::Completed(certs) => Some(certs),
        _ => None,
    }
}

/// Only being told to stop ends the accept loop; a connection is served
/// exactly where its material could be assembled, and a failed accept waits
/// twenty milliseconds.
pub proof fn the_listener_outlives_its_connections(event: AcceptEvent, r: AcceptStep)
    requires
        call_ensures(serve_tls, (event,), r),
    ensures
        r == AcceptStep::Drain <==> event == AcceptEvent::Stop,
        r == AcceptStep::Serve <==> event == (AcceptEvent::Connection { configured: true }),
        r == AcceptStep::Drop <==> event == (AcceptEvent::Connection { configured: false }),
        event == AcceptEvent::Failed <==> r == AcceptStep::BackOff(20),
{
}

/// Serving returns exactly when no connection is left.
pub proof fn serving_returns_when_the_last_has_ended(open: usize, r: DrainStep)
    requires
        call_ensures(drain, (open,), r),
    ensures
        r == DrainStep::Return <==> open == 0,
        r == DrainStep::Wait <==> open > 0,
{
}

/// A connection is served exactly when its handshake completed, with the
/// certificates the peer presented, whether any or none.
pub proof fn a_completed_handshake_is_served(
    handshake: Handshake,
    r: Option<Option<Vec<Vec<u8>>>>,
)
    requires
        call_ensures(serve_connection, (handshake,), r),
    ensures
        r is Some <==> handshake is Completed,
        handshake matches Handshake::Completed(certs) ==> r == Some(certs),
{
}

/// The chain asks the very reader the listener asks.
pub proof fn the_chain_is_given_the_listeners_reader<F: Fn() -> Option<Vec<u8>>>(
    views: F,
    ca: ClusterCa<F>,
    provider: &F,
    answer: Option<Vec<u8>>,
)
    requires
        call_ensures(ClusterCa::<F>::from_views, (views,), ca),
        call_ensures(ClusterCa::<F>::provider, (&ca,), provider),
        call_ensures(ClusterCa::<F>::current, (&ca,), answer),
    ensures
        *provider == views,
        views.ensures((), answer),
{
}

} // verus!
