//! The answers the admin surface gives on the wire.

use vstd::prelude::*;

verus! {

/// One member of the membership, by address.
#[derive(Debug, Clone)]
pub struct RaftMember {
    pub node_id: u64,
    pub address: String,
}

/// One voter configuration.
#[derive(Debug, Clone)]
pub struct VoterConfig {
    pub voters: Vec<u64>,
}

/// The voter configurations and every member.
#[derive(Debug, Clone)]
pub struct Membership {
    pub configs: Vec<VoterConfig>,
    pub members: Vec<RaftMember>,
}

/// How far one follower has replicated, as the leader sees it.
#[derive(Debug, Clone, Copy, PartialEq, Eq, Structural)]
pub struct ReplicationProgress {
    pub node_id: u64,
    pub matched_index: u64,
}

/// A machine identity bound to a seat.
#[derive(Debug, Clone)]
pub struct MachineBinding {
    pub machine_id: String,
    pub node_id: u64,
    pub address: String,
    pub bound_at_us: i64,
}

/// A node that confirmed receipt of the cluster key.
#[derive(Debug, Clone, Copy, PartialEq, Eq, Structural)]
pub struct KeyHolder {
    pub node_id: u64,
    pub confirmed_at_us: i64,
}

/// A node the leader committed to keying whose confirmation never landed.
#[derive(Debug, Clone, Copy, PartialEq, Eq, Structural)]
pub struct PendingKeyTransfer {
    pub node_id: u64,
    pub intended_at_us: i64,
}

/// The leader's redundancy verdict.
#[derive(Debug, Clone, Copy, PartialEq, Eq, Structural)]
pub struct ClusterHealth {
    pub healthy: bool,
    pub live_voters: u64,
}

/// One coordinator's view of its cluster.
#[derive(Debug, Clone)]
pub struct ClusterStatusResponse {
    pub local_node_id: u64,
    pub leader_node_id: Option<u64>,
    pub term: u64,
    pub last_applied_index: u64,
    pub known_committed_index: u64,
    pub membership: Option<Membership>,
    pub replication: Vec<ReplicationProgress>,
    pub bindings: Vec<MachineBinding>,
    pub key_holders: Vec<KeyHolder>,
    pub pending_key_transfers: Vec<PendingKeyTransfer>,
    pub health: Option<ClusterHealth>,
}

/// One voter, as a probe reports it.
#[derive(Debug, Clone)]
pub struct ProbeVoter {
    pub node_id: u64,
    pub address: String,
}

/// A daemon's answer to a probe.
#[derive(Debug, Clone)]
pub struct ProbeClusterResponse {
    pub cluster_id: String,
    pub history_id: Vec<u8>,
    pub initialized: bool,
    pub node_id: Option<u64>,
    pub leader_hint: Option<u64>,
    pub voters: Vec<ProbeVoter>,
}

/// A copy of some bytes.
pub fn copy_bytes(bytes: &Vec<u8>) -> (r: Vec<u8>)
    ensures
        r@ == bytes@,
{
    vstd::slice::slice_to_vec(bytes.as_slice())
}

} // verus!
