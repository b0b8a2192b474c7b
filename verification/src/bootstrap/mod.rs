//! The boot sequence and the process lifecycle: what is bound before the data
//! directory is read, what its stamp makes of the daemon, and in which order
//! everything is taken down again.

pub mod boot;
pub mod lifecycle;
pub mod park;
