//! Taking a served replica down again, in dependency order.

use vstd::prelude::*;

verus! {

/// One step of a shutdown, after the task runtime has drained.
#[derive(Debug, Clone, Copy, PartialEq, Eq, Structural)]
pub enum ShutdownStep {
    /// Wait for the admin socket to close.
    JoinAdminSocket,
    /// Take back this process's registration in the discovery directory.
    RemoveRegistration,
    /// No new peer traffic.
    StopTransport,
    /// Drain the apply task.
    StopConsensus,
    /// Storage flushes as the last handles go.
    ReleaseHandles,
}

/// The steps of a shutdown. The registration goes while the process can still
/// take it back; consensus goes after the transport that feeds it.
pub open spec fn shutdown_steps(registered: bool) -> Seq<ShutdownStep> {
    if registered {
        seq![
            ShutdownStep::JoinAdminSocket,
            ShutdownStep::RemoveRegistration,
            ShutdownStep::StopTransport,
            ShutdownStep::StopConsensus,
            ShutdownStep::ReleaseHandles,
        ]
    } else {
        seq![
            ShutdownStep::JoinAdminSocket,
            ShutdownStep::StopTransport,
            ShutdownStep::StopConsensus,
            ShutdownStep::ReleaseHandles,
        ]
    }
}

/// The steps of a shutdown, in order.
pub fn shutdown_order(registered: bool) -> (r: Vec<ShutdownStep>)
    ensures
        r@ == shutdown_steps(registered),
{
    let mut steps: Vec<ShutdownStep> = Vec::new();
    steps.push(ShutdownStep::JoinAdminSocket);
    if registered {
        steps.push(ShutdownStep::RemoveRegistration);
    }
    steps.push(ShutdownStep::StopTransport);
    steps.push(ShutdownStep::StopConsensus);
    steps.push(ShutdownStep::ReleaseHandles);
    assert(steps@ =~= shutdown_steps(registered));
    steps
}

/// Consensus never outlives its handles nor goes before its transport.
pub proof fn consensus_goes_after_its_transport(registered: bool, i: int, j: int)
    requires
        0 <= i < shutdown_steps(registered).len(),
        0 <= j < shutdown_steps(registered).len(),
        shutdown_steps(registered)[i] == ShutdownStep::StopTransport,
        shutdown_steps(registered)[j] == ShutdownStep::StopConsensus,
    ensures
        i < j,
{
}

/// A shutdown waits for the admin socket first and releases its handles last;
/// the registration goes before the transport, and only where there is one.
pub proof fn a_shutdown_takes_everything_down(registered: bool, r: Vec<ShutdownStep>)
    requires
        call_ensures(shutdown_order, (registered,), r),
    ensures
        r@.len() == if registered {
            5int
        } else {
            4
        },
        r@[0] == ShutdownStep::JoinAdminSocket,
        r@.last() == ShutdownStep::ReleaseHandles,
        r@[r@.len() - 2] == ShutdownStep::StopConsensus,
        r@[r@.len() - 3] == ShutdownStep::StopTransport,
        r@[1] == ShutdownStep::RemoveRegistration <==> registered,
{
}

} // verus!
