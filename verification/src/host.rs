//! The invocation protocol: what the host does with what the caller asks.
//!
//! A `Host` holds one callee and one caller, each with a region of its own,
//! and runs a request to the caller as one transaction: a direct call runs
//! inline on the callee, a dispatched sub-call runs as a transition of its
//! own and is answered by the caller's reply entry whether it succeeded or
//! failed, and a request that fails leaves both regions as they were.

use crate::callee::number;
use crate::caller::{
    callee_reference, execute_plan, instantiated, observed_values, query_plan, reply_plan, ExecutePlan,
    ExecutePlanView, ReadPlan, ReadPlanView,
};
use crate::counter::{after_increment, incremented, lemma_decode_encode, stored_counter, with_counter};
use crate::error::ContractError;
use crate::msg::{CalleeInstantiateMsg, ExecuteMsg, InstantiateMsg, NumberResponse, QueryMsg};
use crate::response::{Reply, Response, ResponseView, SubMsg, SubMsgResult, SubMsgView};
use crate::storage::{entries, no_entries, storage_new};
use cosmwasm_std::MemoryStorage;
use vstd::prelude::*;

verus! {

/// One callee and one caller, as the host deploys them.
pub struct Host {
    /// The address under which the callee can be invoked.
    pub callee_addr: String,
    /// The callee's region.
    pub callee: MemoryStorage,
    /// The caller's region.
    pub caller: MemoryStorage,
}

pub struct HostView {
    pub callee_addr: Seq<char>,
    pub callee: Map<Seq<u8>, Seq<u8>>,
    pub caller: Map<Seq<u8>, Seq<u8>>,
}

impl View for Host {
    type V = HostView;

    open spec fn view(&self) -> HostView {
        HostView {
            callee_addr: self.callee_addr@,
            callee: entries(self.callee),
            caller: entries(self.caller),
        }
    }
}

/// Whether the caller's stored reference names the callee of this
/// deployment.
pub open spec fn linked(host: HostView) -> bool {
    callee_reference(host.caller) matches Ok(callee) && callee == host.callee_addr
}

/// The callee that a read is addressed to.
pub open spec fn read_target(plan: ReadPlanView) -> Seq<char> {
    match plan {
        ReadPlanView::Counter { callee } => callee,
        ReadPlanView::Query { callee, msg } => callee,
    }
}

/// What a read returns: the stored counter through either channel, and
/// `Unresolved` where the address does not name the callee.
pub open spec fn observed(host: HostView, plan: ReadPlanView) -> Result<i32, ContractError> {
    if read_target(plan) != host.callee_addr {
        Err(ContractError::Unresolved)
    } else {
        match plan {
            ReadPlanView::Counter { callee } => stored_counter(host.callee),
            ReadPlanView::Query { callee, msg } => match number(host.callee) {
                Ok(answer) => Ok(answer.value),
                Err(e) => Err(e),
            },
        }
    }
}

/// What the direct call `increment(by)` at `callee` returns.
pub open spec fn direct_increment(host: HostView, callee: Seq<char>, by: i32) -> Result<
    (),
    ContractError,
> {
    if callee != host.callee_addr {
        Err(ContractError::Unresolved)
    } else {
        match incremented(host.callee, by) {
            Ok(_) => Ok(()),
            Err(e) => Err(e),
        }
    }
}

/// The deployment once an increment has been attempted at `callee`, through
/// either channel.
pub open spec fn after_increment_at(host: HostView, callee: Seq<char>, by: i32) -> HostView {
    if callee != host.callee_addr {
        host
    } else {
        HostView { callee: after_increment(host.callee, by), ..host }
    }
}

/// How a dispatched sub-call ends: it succeeds where its address names the
/// callee and the callee's transition succeeds.
pub open spec fn dispatched(host: HostView, sub: SubMsgView) -> SubMsgResult {
    if sub.contract_addr == host.callee_addr && incremented(host.callee, sub.msg->value) is Ok {
        SubMsgResult::Success
    } else {
        SubMsgResult::Failure
    }
}

/// What a query of the caller answers.
pub open spec fn queried(host: HostView, msg: QueryMsg) -> Result<NumberResponse, ContractError> {
    match query_plan(host.caller, msg) {
        Err(e) => Err(e),
        Ok(plan) => match observed(host, plan) {
            Ok(value) => Ok(NumberResponse { value }),
            Err(e) => Err(e),
        },
    }
}

/// What a reply answers that runs on `host`: the two values it reads there,
/// or the error of the first read that fails.
pub open spec fn replied(host: HostView) -> Result<ResponseView, ContractError> {
    match reply_plan(host.caller) {
        Err(e) => Err(e),
        Ok(reads) => match observed(host, reads.0) {
            Err(e) => Err(e),
            Ok(value_dyn) => match observed(host, reads.1) {
                Err(e) => Err(e),
                Ok(value_query) => Ok(observed_values(value_dyn, value_query)),
            },
        },
    }
}

/// What a request to the caller's execute entry answers, as one transaction.
///
/// `Add` runs the direct call inline and answers with the empty response.
/// `SubmsgReplyIncrement` dispatches the sub-call, lets it run on the callee,
/// and answers with the response of the reply. The reply runs on the
/// deployment as the sub-call left it: with the sum where the sub-call
/// succeeded, unchanged where it failed.
pub open spec fn executed(host: HostView, msg: ExecuteMsg) -> Result<ResponseView, ContractError> {
    match execute_plan(host.caller, msg) {
        Err(e) => Err(e),
        Ok(ExecutePlanView::Increment { callee, by }) => match direct_increment(host, callee, by) {
            Ok(_) => Ok(ResponseView::empty()),
            Err(e) => Err(e),
        },
        Ok(ExecutePlanView::Respond(response)) => replied(
            after_increment_at(
                host,
                response.messages[0].contract_addr,
                response.messages[0].msg->value,
            ),
        ),
    }
}

/// The deployment once a request to the caller's execute entry has run: as
/// the increment left it where the transaction succeeded, untouched where it
/// failed.
pub open spec fn after_execute(host: HostView, msg: ExecuteMsg) -> HostView {
    match execute_plan(host.caller, msg) {
        Err(_) => host,
        Ok(ExecutePlanView::Increment { callee, by }) => after_increment_at(host, callee, by),
        Ok(ExecutePlanView::Respond(response)) => if executed(host, msg) is Ok {
            after_increment_at(host, response.messages[0].contract_addr, response.messages[0].msg->value)
        } else {
            host
        },
    }
}

impl Host {
    /// A deployment in which neither component is initialized yet.
    pub fn new(callee_addr: String) -> (host: Host)
        ensures
            host@ == (HostView { callee_addr: callee_addr@, callee: no_entries(), caller: no_entries() }),
    {
        Host { callee_addr, callee: storage_new(), caller: storage_new() }
    }

    /// Runs the callee's instantiate entry.
    pub fn instantiate_callee(&mut self, msg: CalleeInstantiateMsg) -> (res: Result<
        Response,
        ContractError,
    >)
        ensures
            res matches Ok(response) && response@ == ResponseView::empty(),
            final(self)@ == (HostView { callee: with_counter(old(self)@.callee, msg.value), ..old(self)@ }),
    {
        crate::callee::instantiate(&mut self.callee, msg)
    }

    /// Runs the caller's instantiate entry. Afterwards the caller refers to
    /// the address in the message, and is linked where that is the address
    /// of the callee.
    pub fn instantiate_caller(&mut self, msg: InstantiateMsg) -> (res: Result<Response, ContractError>)
        ensures
            res matches Ok(response) && response@ == ResponseView::empty(),
            final(self)@ == (HostView {
                caller: instantiated(old(self)@.caller, msg.callee_addr@),
                ..old(self)@
            }),
            callee_reference(final(self)@.caller) matches Ok(callee) && callee == msg.callee_addr@,
            linked(final(self)@) <==> msg.callee_addr@ == old(self)@.callee_addr,
    {
        crate::caller::instantiate(&mut self.caller, msg)
    }

    /// Runs a read of the callee's counter for the caller.
    pub fn read(&self, plan: &ReadPlan) -> (res: Result<i32, ContractError>)
        ensures
            res == observed(self@, plan@),
    {
        match plan {
            ReadPlan::Counter { callee } => {
                if *callee == self.callee_addr {
                    crate::callee::counter(&self.callee)
                } else {
                    Err(ContractError::Unresolved)
                }
            },
            ReadPlan::Query { callee, msg } => {
                if *callee == self.callee_addr {
                    let answer = crate::callee::query(&self.callee, *msg)?;
                    Ok(answer.value)
                } else {
                    Err(ContractError::Unresolved)
                }
            },
        }
    }

    /// Runs the callee's direct call `increment(by)` for the caller.
    pub fn increment(&mut self, callee: &String, by: i32) -> (res: Result<(), ContractError>)
        ensures
            res == direct_increment(old(self)@, callee@, by),
            final(self)@ == after_increment_at(old(self)@, callee@, by),
    {
        if *callee == self.callee_addr {
            crate::callee::increment(&mut self.callee, by)
        } else {
            Err(ContractError::Unresolved)
        }
    }

    /// Runs a dispatched sub-call as a transition of the callee.
    pub fn dispatch(&mut self, sub: &SubMsg) -> (result: SubMsgResult)
        ensures
            result == dispatched(old(self)@, sub@),
            final(self)@ == after_increment_at(old(self)@, sub@.contract_addr, sub@.msg->value),
    {
        if sub.contract_addr == self.callee_addr {
            match crate::callee::execute(&mut self.callee, sub.msg) {
                Ok(_) => SubMsgResult::Success,
                Err(_) => SubMsgResult::Failure,
            }
        } else {
            SubMsgResult::Failure
        }
    }

    /// Answers a query of the caller.
    pub fn query(&self, msg: QueryMsg) -> (res: Result<NumberResponse, ContractError>)
        ensures
            res == queried(self@, msg),
    {
        let plan = crate::caller::query(&self.caller, msg)?;
        let value = self.read(&plan)?;
        Ok(crate::caller::counter_dyn_response(value))
    }

    /// Runs a request to the caller's execute entry as one transaction.
    ///
    /// On success the response is that of the last transition of the caller
    /// that ran: the entry's own after `Add`, the reply's after
    /// `SubmsgReplyIncrement`. The reply runs after the sub-call whether
    /// that succeeded or failed, as the sub-call asks. Where the request
    /// fails nothing has changed.
    pub fn execute(&mut self, msg: ExecuteMsg) -> (res: Result<Response, ContractError>)
        ensures
            match executed(old(self)@, msg) {
                Ok(answer) => res matches Ok(response) && response@ == answer,
                Err(e) => res matches Err(err) && err == e,
            },
            final(self)@ == after_execute(old(self)@, msg),
    {
        match crate::caller::execute(&self.caller, msg)? {
            ExecutePlan::Increment { callee, by } => {
                self.increment(&callee, by)?;
                Ok(Response::default())
            },
            ExecutePlan::Respond(response) => {
                assert(response@.messages.len() == 1);
                let sub = &response.messages[0];
                assert(sub@ == response@.messages[0]);
                let result = self.dispatch(sub);
                proof {
                    lemma_reply_after_dispatch(old(self)@, sub@);
                }
                let reads = crate::caller::reply(&self.caller, Reply { id: sub.id, result })?;
                let value_dyn = self.read(&reads.0)?;
                let value_query = self.read(&reads.1)?;
                Ok(crate::caller::reply_response(value_dyn, value_query))
            },
        }
    }
}

/// A reply that follows a successful sub-call succeeds; so where the reply
/// fails, the sub-call has failed and changed nothing.
proof fn lemma_reply_after_dispatch(host: HostView, sub: SubMsgView)
    requires
        callee_reference(host.caller) matches Ok(callee) && callee == sub.contract_addr,
    ensures
        dispatched(host, sub) == SubMsgResult::Failure ==> after_increment_at(
            host,
            sub.contract_addr,
            sub.msg->value,
        ) == host,
        dispatched(host, sub) == SubMsgResult::Success ==> replied(
            after_increment_at(host, sub.contract_addr, sub.msg->value),
        ) is Ok,
{
    if dispatched(host, sub) == SubMsgResult::Success {
        lemma_decode_encode(incremented(host.callee, sub.msg->value)->Ok_0);
    }
}

} // verus!
