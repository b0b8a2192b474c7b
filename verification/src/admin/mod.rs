//! The membership admin surface: who may call what, what each verb does and
//! in which order, and how a refusal reads.

pub mod authz;
pub mod client;
pub mod custody;
pub mod endpoint;
pub mod laws;
pub mod membership;
pub mod refusals;
pub mod render;
pub mod summary;
pub mod tokens;
