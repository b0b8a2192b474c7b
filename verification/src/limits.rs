//! Bounded-channel capacities and cadences of the runtime. What happens when a
//! channel is full is said beside its capacity.

use vstd::prelude::*;

verus! {

/// Apply task to event fanout. On full the batch is dropped and the receiver
/// synthesizes a gap.
pub const EVENT_TAP_CAPACITY: usize = 4096;

/// Fanout to one subscriber. On full the subscriber is marked gapped and its
/// backlog dropped.
pub const SUBSCRIBER_QUEUE_CAPACITY: usize = 1024;

/// How often a pending gap is retried to an idle subscriber, in milliseconds.
pub const FANOUT_GAP_RETRY_INTERVAL_MS: u64 = 250;

/// Sessions to ingestion. A full channel stalls the session's socket.
pub const AGENT_INBOUND_CAPACITY: usize = 8192;

/// Router to one session. On full the session is disconnected.
pub const AGENT_OUTBOUND_CAPACITY: usize = 256;

/// Dispatch and ingestion to the session manager; producers wait.
pub const COMMAND_ROUTER_CAPACITY: usize = 1024;

/// Session pumps to the session manager; producers wait.
pub const SESSION_CONTROL_CAPACITY: usize = 64;

/// Clients to the event fanout; producers wait.
pub const SUBSCRIBE_REQUESTS_CAPACITY: usize = 64;

/// Events examined for one timeline request before it returns short.
pub const EVENT_WINDOW_SCAN_BUDGET: usize = 100_000;

/// The reconnection ring, by events; the oldest are evicted.
pub const FANOUT_RING_MAX_EVENTS: usize = 1_000_000;

/// The reconnection ring, by age in seconds.
pub const FANOUT_RING_MAX_AGE_SECS: u64 = 3600;

/// The reconnection ring, by approximate bytes.
pub const FANOUT_RING_MAX_BYTES: usize = 268_435_456;

/// Events examined for one catch-up page before it returns short.
pub const EVENT_CATCH_UP_SCAN_BUDGET: usize = 20_000;

/// How often each subscriber gets a progress bookmark, in seconds. It is the
/// stream's keepalive too.
pub const EVENT_PROGRESS_INTERVAL_SECS: u64 = 15;

/// One connection task to its handler.
pub const EVENT_STREAM_QUEUE_CAPACITY: usize = 64;

/// Subscriptions one replica serves at a time; more are refused.
pub const MAX_EVENT_SUBSCRIPTIONS: usize = 1024;

/// Width of one queue-statistics bucket, in seconds.
pub const QUEUE_BUCKET_INTERVAL_SECS: u64 = 30;

/// Closed queue-statistics buckets retained.
pub const QUEUE_WINDOW_MAX_BUCKETS: usize = 120;

/// Width of one node-usage bucket, in seconds.
pub const USAGE_BUCKET_INTERVAL_SECS: u64 = 30;

/// Closed node-usage buckets retained.
pub const USAGE_WINDOW_MAX_BUCKETS: usize = 120;

/// How old a node's usage reading may be before it reads as absent, in
/// seconds.
pub const USAGE_SAMPLE_MAX_AGE_SECS: u64 = 90;

/// How often a leader sweeps, in seconds, unless configured otherwise.
pub const HOUSEKEEPING_INTERVAL_SECS: u64 = 60;

/// How long a node may be silent before the leader declares it lost, in
/// seconds.
pub const AGENT_LIVENESS_DEADLINE_SECS: u64 = 90;

/// An hour of queue statistics is retained, and as much of node usage, on the
/// same axis.
pub proof fn windows_span_an_hour()
    ensures
        QUEUE_BUCKET_INTERVAL_SECS * QUEUE_WINDOW_MAX_BUCKETS == FANOUT_RING_MAX_AGE_SECS,
        USAGE_BUCKET_INTERVAL_SECS == QUEUE_BUCKET_INTERVAL_SECS,
        USAGE_WINDOW_MAX_BUCKETS == QUEUE_WINDOW_MAX_BUCKETS,
{
}

/// A usage reading never outlives the node it describes: it expires with the
/// liveness deadline.
pub proof fn readings_expire_with_their_node()
    ensures
        USAGE_SAMPLE_MAX_AGE_SECS == AGENT_LIVENESS_DEADLINE_SECS,
{
}

/// A node is lost after a minute and a half of silence, and a leader sweeps
/// every minute.
pub proof fn silence_is_judged_after_ninety_seconds()
    ensures
        AGENT_LIVENESS_DEADLINE_SECS == 90,
        HOUSEKEEPING_INTERVAL_SECS == 60,
        EVENT_TAP_CAPACITY == 4096,
        MAX_EVENT_SUBSCRIPTIONS == 1024,
        EVENT_PROGRESS_INTERVAL_SECS == 15,
{
}

} // verus!
