//! Gating of tasks that only a leader runs.
//!
//! Such a task is never killed: it waits to lead, works, and stops of its own
//! accord when leadership is lost or the daemon shuts down.

use vstd::prelude::*;

use crate::cluster::Role;

verus! {

/// What a task that waits to lead does.
#[derive(Debug, Clone, Copy, PartialEq, Eq, Structural)]
pub enum Gate {
    /// It leads in this term.
    Lead(u64),
    /// It will not lead any more.
    Stop,
    /// Look again when something changes.
    Wait,
}

/// One look while waiting to lead, the watches still open or not. Shutdown
/// comes first; a watch that closed ends the wait, since what it watched is
/// gone.
pub fn wait_for_leadership(closed: bool, shutdown: bool, role: Role) -> (r: Gate)
    ensures
        r == (if closed || shutdown {
            Gate::Stop
        } else {
            match role {
                Role::Leader { term } => Gate::Lead(term),
                _ => Gate::Wait,
            }
        }),
{
    if closed || shutdown {
        return Gate::Stop;
    }
    match role {
        Role::Leader { term } => Gate::Lead(term),
        _ => Gate::Wait,
    }
}

/// Whether a task that leads in `term` is to stop. Another term counts as
/// leadership lost, a newer one of this very replica too.
pub open spec fn must_stop(term: u64, closed: bool, shutdown: bool, role: Role) -> bool {
    closed || shutdown || role != (Role::Leader { term })
}

/// One look of a task that leads in `term`: whether it is to stop.
pub fn until_leadership_lost(term: u64, closed: bool, shutdown: bool, role: Role) -> (r: bool)
    ensures
        r == must_stop(term, closed, shutdown, role),
{
    if closed || shutdown {
        return true;
    }
    match role {
        Role::Leader { term: current } => current != term,
        _ => true,
    }
}

/// The two arms meet: a task goes on in a term exactly while a look would let
/// it lead in that term, and a newer term of the same replica stops it.
pub proof fn the_arms_meet(term: u64, newer: u64, closed: bool, shutdown: bool, role: Role)
    requires
        newer > term,
    ensures
        !must_stop(term, closed, shutdown, role) <==> !closed && !shutdown && role == (
        Role::Leader { term }),
        must_stop(term, closed, shutdown, Role::Leader { term: newer }),
{
}

/// A waiting task leads exactly where the watched replica does, in that very
/// term, and stops as soon as the daemon does or a watch is gone.
pub proof fn a_task_leads_with_its_replica(
    term: u64,
    closed: bool,
    shutdown: bool,
    role: Role,
    look: Gate,
    stop: bool,
)
    requires
        call_ensures(wait_for_leadership, (closed, shutdown, role), look),
        call_ensures(until_leadership_lost, (term, closed, shutdown, role), stop),
    ensures
        look == Gate::Stop <==> closed || shutdown,
        look == Gate::Lead(term) <==> !closed && !shutdown && role == (Role::Leader { term }),
        look == Gate::Wait <==> !closed && !shutdown && !(role is Leader),
        stop <==> look != Gate::Lead(term),
{
}

} // verus!
