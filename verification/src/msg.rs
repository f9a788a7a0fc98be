//! The messages that the two components accept and answer with.

use vstd::prelude::*;

verus! {

/// Initializes the caller with the address of the callee it will invoke.
#[derive(Clone, Debug, PartialEq, Eq)]
pub struct InstantiateMsg {
    pub callee_addr: String,
}

/// What the caller can be asked to do.
#[derive(Clone, Copy, Debug, PartialEq, Eq, Structural)]
pub enum ExecuteMsg {
    /// Increment the callee's counter through the direct-call channel.
    Add { value: i32 },
    /// Increment the callee's counter through a dispatched sub-call that is
    /// answered by a reply.
    SubmsgReplyIncrement { value: i32 },
}

/// What the caller can be asked about.
#[derive(Clone, Copy, Debug, PartialEq, Eq, Structural)]
pub enum QueryMsg {
    /// The callee's counter, read through the host's query executor.
    Counter {},
    /// The callee's counter, read through the direct-call channel.
    CounterDyn {},
}

/// The answer to every query: the counter's value.
#[derive(Clone, Copy, Debug, PartialEq, Eq, Structural)]
pub struct NumberResponse {
    pub value: i32,
}

/// Initializes the callee with the first value of its counter.
#[derive(Clone, Copy, Debug, PartialEq, Eq, Structural)]
pub struct CalleeInstantiateMsg {
    pub value: i32,
}

/// What the callee can be asked to do.
#[derive(Clone, Copy, Debug, PartialEq, Eq, Structural)]
pub enum CalleeExecuteMsg {
    Increment { value: i32 },
}

/// What the callee can be asked about.
#[derive(Clone, Copy, Debug, PartialEq, Eq, Structural)]
pub enum CalleeQueryMsg {
    Number {},
}

} // verus!
