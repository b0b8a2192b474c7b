//! Enrollment: how a machine earns its leaf, and how a replica that does not
//! lead passes the request on.

pub mod issue;
pub mod proxy;
