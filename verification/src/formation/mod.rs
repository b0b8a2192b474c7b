//! Cluster formation: the one privileged ceremony of a cluster's lifetime, and
//! the phase of a daemon that every surface answers from.
//!
//! An intent is stamped before anything else durable, a completion marker
//! last. Between them the daemon's external surface stays closed, so a failed
//! formation is confined to the one node that attempted it.

pub mod form;
pub mod guard;
pub mod phase;
pub mod startup;
