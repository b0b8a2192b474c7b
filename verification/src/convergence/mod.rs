//! The self-converging membership loop: how a replica reads a refusal, where
//! it looks for its leader, when it stops for good, and how long it waits in
//! between.

pub mod classify;
pub mod join;
pub mod leader;
pub mod pacing;
pub mod prestart;
pub mod supersession;
