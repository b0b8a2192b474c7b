//! The coordinator's decisions: membership administration, convergence,
//! formation, enrollment, configuration and liveness, each stated as a
//! contract and proved.

pub mod admin;
pub mod bootstrap;
pub mod cli;
pub mod clientedge;
pub mod clientwrite;
pub mod clock;
pub mod cluster;
pub mod config;
pub mod convergence;
pub mod discovery;
pub mod enroll;
pub mod failpoints;
pub mod formation;
pub mod json;
pub mod leadership;
pub mod limits;
pub mod liveness;
pub mod paths;
pub mod seats;
pub mod status;
pub mod text;
pub mod time;
pub mod wire;
