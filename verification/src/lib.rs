//! A persisted counter owned by one component (the callee) and a second
//! component (the caller) that reaches it through two channels: a direct call
//! that runs inline, and a dispatched sub-call that is answered by a reply.

pub mod address;
pub mod callee;
pub mod caller;
pub mod counter;
pub mod decimal;
pub mod error;
pub mod host;
pub mod laws;
pub mod msg;
pub mod response;
pub mod storage;
