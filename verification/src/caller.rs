//! The caller: a component that owns no counter and holds the address of a
//! callee that does.
//!
//! The caller never runs the callee itself. Each entry reads the stored
//! address and says what the host is to run for it: a direct call or a query
//! that runs inline, or a [`Response`] whose sub-call is dispatched and
//! answered by [`reply`], however the sub-call ends. What an inline read
//! returned comes back as a plain value to the function that completes the
//! transition.

use crate::address::{address_from_json, address_to_json, decode_address, encode_address};
use crate::decimal::{decimal, decimal_string};
use crate::error::ContractError;
use crate::msg::{CalleeExecuteMsg, CalleeQueryMsg, ExecuteMsg, InstantiateMsg, NumberResponse, QueryMsg};
use crate::response::{AttributeView, Reply, ReplyOn, Response, ResponseView, SubMsg, SubMsgView};
use crate::storage::{entries, storage_get, storage_set};
use cosmwasm_std::MemoryStorage;
use cosmwasm_std::StdError;
use vstd::prelude::*;
use vstd::string::*;

verus! {

/// The tag of the one kind of sub-call that the caller dispatches.
pub const REPLY_ID: u64 = 0;

/// The key of the record that holds the callee's address.
pub open spec fn address_key() -> Seq<u8> {
    "counter-address".spec_bytes()
}

/// The callee that a caller's region refers to: the address in the record
/// under [`address_key`].
pub open spec fn callee_reference(region: Map<Seq<u8>, Seq<u8>>) -> Result<Seq<char>, ContractError> {
    if !region.contains_key(address_key()) {
        Err(ContractError::Storage)
    } else {
        match address_from_json(region[address_key()]) {
            Some(address) => Ok(address),
            None => Err(ContractError::Decoding),
        }
    }
}

/// A caller's region once `callee_addr` has been recorded in it: the record
/// of the address stands under the address key, and every other key is as it
/// was.
pub open spec fn instantiated(region: Map<Seq<u8>, Seq<u8>>, callee_addr: Seq<char>) -> Map<
    Seq<u8>,
    Seq<u8>,
> {
    region.insert(address_key(), address_to_json(callee_addr))
}

/// A read of the callee's counter that the host runs inline.
#[derive(Clone, Debug, PartialEq, Eq)]
pub enum ReadPlan {
    /// Through the direct-call channel: the callee's `counter()`.
    Counter { callee: String },
    /// Through the host's query executor: a query message for the callee.
    Query { callee: String, msg: CalleeQueryMsg },
}

pub enum ReadPlanView {
    Counter { callee: Seq<char> },
    Query { callee: Seq<char>, msg: CalleeQueryMsg },
}

impl View for ReadPlan {
    type V = ReadPlanView;

    open spec fn view(&self) -> ReadPlanView {
        match *self {
            ReadPlan::Counter { callee } => ReadPlanView::Counter { callee: callee@ },
            ReadPlan::Query { callee, msg } => ReadPlanView::Query { callee: callee@, msg },
        }
    }
}

/// How an `execute` transition of the caller goes on.
#[derive(Clone, Debug, PartialEq, Eq)]
pub enum ExecutePlan {
    /// The host runs the callee's direct call `increment(by)` inline. Where
    /// it succeeds the transition completes with the empty response; where
    /// it fails the transition fails with the same error.
    Increment { callee: String, by: i32 },
    /// The transition is complete, and the host dispatches what the
    /// response holds.
    Respond(Response),
}

pub enum ExecutePlanView {
    Increment { callee: Seq<char>, by: i32 },
    Respond(ResponseView),
}

impl View for ExecutePlan {
    type V = ExecutePlanView;

    open spec fn view(&self) -> ExecutePlanView {
        match *self {
            ExecutePlan::Increment { callee, by } => ExecutePlanView::Increment { callee: callee@, by },
            ExecutePlan::Respond(response) => ExecutePlanView::Respond(response@),
        }
    }
}

/// The response that dispatches the callee's `Increment` to `callee` and
/// asks for a reply under [`REPLY_ID`], whether the sub-call succeeds or
/// fails.
pub open spec fn increment_request(callee: Seq<char>, by: i32) -> ResponseView {
    ResponseView {
        messages: seq![
            SubMsgView {
                id: REPLY_ID,
                contract_addr: callee,
                msg: CalleeExecuteMsg::Increment { value: by },
                reply_on: ReplyOn::Always,
            },
        ],
        attributes: Seq::empty(),
    }
}

/// The response of a reply that read `value_dyn` through the direct call and
/// `value_query` through the query.
pub open spec fn observed_values(value_dyn: i32, value_query: i32) -> ResponseView {
    ResponseView {
        messages: Seq::empty(),
        attributes: seq![
            AttributeView { key: "value_by_dynamic"@, value: decimal(value_dyn as int) },
            AttributeView { key: "value_by_query"@, value: decimal(value_query as int) },
        ],
    }
}

/// What `execute` asks of the host for each message.
pub open spec fn execute_plan(region: Map<Seq<u8>, Seq<u8>>, msg: ExecuteMsg) -> Result<
    ExecutePlanView,
    ContractError,
> {
    match callee_reference(region) {
        Err(e) => Err(e),
        Ok(callee) => match msg {
            ExecuteMsg::Add { value } => Ok(ExecutePlanView::Increment { callee, by: value }),
            ExecuteMsg::SubmsgReplyIncrement { value } => Ok(
                ExecutePlanView::Respond(increment_request(callee, value)),
            ),
        },
    }
}

/// The two reads of a reply: the callee's counter through the direct call,
/// then through the `Number` query.
pub open spec fn both_reads(callee: Seq<char>) -> (ReadPlanView, ReadPlanView) {
    (
        ReadPlanView::Counter { callee },
        ReadPlanView::Query { callee, msg: CalleeQueryMsg::Number {  } },
    )
}

/// What `reply` asks of the host: both reads at the stored address,
/// whatever the reply carries.
pub open spec fn reply_plan(region: Map<Seq<u8>, Seq<u8>>) -> Result<
    (ReadPlanView, ReadPlanView),
    ContractError,
> {
    match callee_reference(region) {
        Err(e) => Err(e),
        Ok(callee) => Ok(both_reads(callee)),
    }
}

/// What `query` asks of the host for each message.
pub open spec fn query_plan(region: Map<Seq<u8>, Seq<u8>>, msg: QueryMsg) -> Result<
    ReadPlanView,
    ContractError,
> {
    match callee_reference(region) {
        Err(e) => Err(e),
        Ok(callee) => match msg {
            QueryMsg::Counter {  } => Ok(
                ReadPlanView::Query { callee, msg: CalleeQueryMsg::Number {  } },
            ),
            QueryMsg::CounterDyn {  } => Ok(ReadPlanView::Counter { callee }),
        },
    }
}

/// Reads the address of the callee from the caller's region.
///
/// Fails with `Storage` where the region holds no address record, and with
/// `Decoding` where the record does not deserialize.
pub fn load_callee(storage: &MemoryStorage) -> (res: Result<String, ContractError>)
    ensures
        match callee_reference(entries(*storage)) {
            Ok(address) => res matches Ok(callee) && callee@ == address,
            Err(e) => res matches Err(err) && err == e,
        },
{
    match storage_get(storage, "counter-address".as_bytes()) {
        None => Err(ContractError::Storage),
        Some(record) => match decode_address(record.as_slice()) {
            Ok(callee) => Ok(callee),
            Err(_) => Err(ContractError::Decoding),
        },
    }
}

/// The reply entry: runs once the sub-call that `SubmsgReplyIncrement`
/// dispatched has ended.
///
/// The reply does not look at what it is handed, neither at the tag nor at
/// how the sub-call ended: after a failed sub-call it goes on as after a
/// successful one, and reads the counter as the failed sub-call left it,
/// which is as it was. It reads the stored address again and asks the host
/// for the callee's counter twice, first through the direct call and then
/// through the query; [`reply_response`] completes the transition with the
/// two values.
pub fn reply(storage: &MemoryStorage, msg: Reply) -> (res: Result<(ReadPlan, ReadPlan), ContractError>)
    ensures
        match reply_plan(entries(*storage)) {
            Ok(reads) => res matches Ok(plan) && plan.0@ == reads.0 && plan.1@ == reads.1,
            Err(e) => res matches Err(err) && err == e,
        },
{
    let address = load_callee(storage)?;
    Ok(reply_reads(address))
}

/// The two reads that a reply asks for, at the address it loaded: first
/// through the direct call, then through the query.
pub fn reply_reads(callee: String) -> (reads: (ReadPlan, ReadPlan))
    ensures
        reads.0@ == both_reads(callee@).0,
        reads.1@ == both_reads(callee@).1,
{
    let by_dynamic = ReadPlan::Counter { callee: callee.clone() };
    let by_query = ReadPlan::Query { callee, msg: CalleeQueryMsg::Number {  } };
    (by_dynamic, by_query)
}

/// Completes a reply: the two values that the host read for it become the
/// attributes `value_by_dynamic` and `value_by_query`, as decimal text.
pub fn reply_response(value_dyn: i32, value_query: i32) -> (response: Response)
    ensures
        response@ == observed_values(value_dyn, value_query),
{
    let response = Response::default().add_attribute(
        "value_by_dynamic",
        decimal_string(value_dyn),
    ).add_attribute("value_by_query", decimal_string(value_query));
    assert(response@.attributes =~= observed_values(value_dyn, value_query).attributes);
    response
}

/// `SubmsgReplyIncrement`: the response that dispatches the callee's
/// `Increment { value: by }` to the stored address, tagged [`REPLY_ID`] and
/// to be answered by a reply always.
pub fn handle_submsg_reply_increment(storage: &MemoryStorage, by: i32) -> (res: Result<
    Response,
    ContractError,
>)
    ensures
        match callee_reference(entries(*storage)) {
            Ok(callee) => res matches Ok(response) && response@ == increment_request(callee, by),
            Err(e) => res matches Err(err) && err == e,
        },
{
    let contract_addr = load_callee(storage)?;
    Ok(dispatch_increment(contract_addr, by))
}

/// The response that `SubmsgReplyIncrement` answers with, for the address
/// it loaded: one sub-call and no attribute.
pub fn dispatch_increment(contract_addr: String, by: i32) -> (response: Response)
    ensures
        response@ == increment_request(contract_addr@, by),
{
    let execute_msg = SubMsg {
        id: REPLY_ID,
        contract_addr,
        msg: CalleeExecuteMsg::Increment { value: by },
        reply_on: ReplyOn::Always,
    };
    let response = Response::default().add_submessage(execute_msg);
    assert(response@.messages =~= increment_request(contract_addr@, by).messages);
    response
}

/// `Add`: asks for the callee's direct call `increment(by)` at the stored
/// address.
pub fn handle_add(storage: &MemoryStorage, by: i32) -> (res: Result<ExecutePlan, ContractError>)
    ensures
        match callee_reference(entries(*storage)) {
            Ok(callee) => res matches Ok(plan) && plan@ == (ExecutePlanView::Increment {
                callee,
                by,
            }),
            Err(e) => res matches Err(err) && err == e,
        },
{
    let address = load_callee(storage)?;
    Ok(ExecutePlan::Increment { callee: address, by })
}

/// `Counter`: asks for the callee's `Number` query at the stored address.
/// What the host's query executor answers is the answer of this query.
pub fn query_counter(storage: &MemoryStorage) -> (res: Result<ReadPlan, ContractError>)
    ensures
        match callee_reference(entries(*storage)) {
            Ok(callee) => res matches Ok(plan) && plan@ == (ReadPlanView::Query {
                callee,
                msg: CalleeQueryMsg::Number {  },
            }),
            Err(e) => res matches Err(err) && err == e,
        },
{
    let address = load_callee(storage)?;
    Ok(ReadPlan::Query { callee: address, msg: CalleeQueryMsg::Number {  } })
}

/// The execute entry of the caller.
pub fn execute(storage: &MemoryStorage, msg: ExecuteMsg) -> (res: Result<ExecutePlan, ContractError>)
    ensures
        match execute_plan(entries(*storage), msg) {
            Ok(asked) => res matches Ok(plan) && plan@ == asked,
            Err(e) => res matches Err(err) && err == e,
        },
{
    match msg {
        ExecuteMsg::Add { value } => handle_add(storage, value),
        ExecuteMsg::SubmsgReplyIncrement { value } => {
            let response = handle_submsg_reply_increment(storage, value)?;
            Ok(ExecutePlan::Respond(response))
        },
    }
}

/// The query entry of the caller.
pub fn query(storage: &MemoryStorage, msg: QueryMsg) -> (res: Result<ReadPlan, ContractError>)
    ensures
        match query_plan(entries(*storage), msg) {
            Ok(asked) => res matches Ok(plan) && plan@ == asked,
            Err(e) => res matches Err(err) && err == e,
        },
{
    match msg {
        QueryMsg::Counter {  } => query_counter(storage),
        QueryMsg::CounterDyn {  } => query_counter_dyn(storage),
    }
}

/// `CounterDyn`: asks for the callee's direct call `counter()` at the stored
/// address; [`counter_dyn_response`] wraps what it returned.
pub fn query_counter_dyn(storage: &MemoryStorage) -> (res: Result<ReadPlan, ContractError>)
    ensures
        match callee_reference(entries(*storage)) {
            Ok(callee) => res matches Ok(plan) && plan@ == (ReadPlanView::Counter { callee }),
            Err(e) => res matches Err(err) && err == e,
        },
{
    let address = load_callee(storage)?;
    Ok(ReadPlan::Counter { callee: address })
}

/// Completes a `CounterDyn` query with the value that the direct call
/// returned.
pub fn counter_dyn_response(value: i32) -> (response: NumberResponse)
    ensures
        response == (NumberResponse { value }),
{
    NumberResponse { value }
}

/// The instantiate entry of the caller: records the callee's address.
///
/// It succeeds on every address. Afterwards the region refers to the
/// address exactly as supplied, and every other key is as it was. Nothing is
/// asked of the address, and nothing is invoked: whether it names a live
/// callee shows only when an invocation is attempted.
pub fn instantiate(storage: &mut MemoryStorage, msg: InstantiateMsg) -> (res: Result<
    Response,
    ContractError,
>)
    ensures
        res matches Ok(response) && response@ == ResponseView::empty(),
        entries(*final(storage)) == instantiated(entries(*old(storage)), msg.callee_addr@),
        callee_reference(entries(*final(storage))) matches Ok(callee) && callee == msg.callee_addr@,
{
    save_callee(storage, encode_address(msg.callee_addr.as_str()))
}

/// Stores what the encoding of an address gave: a record goes under the
/// address key and is answered with the empty response, and an error of the
/// encoding becomes `Serialization` and writes nothing. The region cannot
/// hold an empty record.
pub fn save_callee(storage: &mut MemoryStorage, encoded: Result<Vec<u8>, StdError>) -> (res: Result<
    Response,
    ContractError,
>)
    requires
        encoded matches Ok(record) ==> record@.len() > 0,
    ensures
        match encoded {
            Ok(record) => res matches Ok(response) && response@ == ResponseView::empty()
                && entries(*final(storage)) == entries(*old(storage)).insert(
                address_key(),
                record@,
            ),
            Err(_) => res matches Err(err) && err == ContractError::Serialization && entries(
                *final(storage),
            ) == entries(*old(storage)),
        },
{
    match encoded {
        Ok(record) => {
            storage_set(storage, "counter-address".as_bytes(), record.as_slice());
            Ok(Response::default())
        },
        Err(_) => Err(ContractError::Serialization),
    }
}

} // verus!
