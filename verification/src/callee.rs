//! The callee: the component that owns the counter.
//!
//! It can be reached as a message (`execute`, `query`) and as a direct call
//! (`increment`, `counter`). Both ways end in the same operations of the
//! counter store, so whoever invokes it sees the same state afterwards.

use crate::counter::{after_increment, incremented, stored_counter, with_counter};
use crate::error::ContractError;
use crate::msg::{CalleeExecuteMsg, CalleeInstantiateMsg, CalleeQueryMsg, NumberResponse};
use crate::response::{Response, ResponseView};
use crate::storage::entries;
use cosmwasm_std::MemoryStorage;
use vstd::prelude::*;

verus! {

/// What the `Number` query and the direct call `counter()` answer with.
pub open spec fn number(region: Map<Seq<u8>, Seq<u8>>) -> Result<NumberResponse, ContractError> {
    match stored_counter(region) {
        Ok(value) => Ok(NumberResponse { value }),
        Err(e) => Err(e),
    }
}

/// The instantiate entry: stores the first value of the counter.
pub fn instantiate(storage: &mut MemoryStorage, msg: CalleeInstantiateMsg) -> (res: Result<
    Response,
    ContractError,
>)
    ensures
        res matches Ok(response) && response@ == ResponseView::empty(),
        entries(*final(storage)) == with_counter(entries(*old(storage)), msg.value),
{
    crate::counter::write(storage, msg.value);
    Ok(Response::default())
}

/// The execute entry: `Increment` adds to the counter and answers with the
/// empty response. A failed increment fails the transition and writes
/// nothing.
pub fn execute(storage: &mut MemoryStorage, msg: CalleeExecuteMsg) -> (res: Result<
    Response,
    ContractError,
>)
    ensures
        match incremented(entries(*old(storage)), msg->value) {
            Ok(_) => res matches Ok(response) && response@ == ResponseView::empty(),
            Err(e) => res matches Err(err) && err == e,
        },
        entries(*final(storage)) == after_increment(entries(*old(storage)), msg->value),
{
    match msg {
        CalleeExecuteMsg::Increment { value } => {
            increment(storage, value)?;
            Ok(Response::default())
        },
    }
}

/// The query entry: `Number` answers with the counter's value.
pub fn query(storage: &MemoryStorage, msg: CalleeQueryMsg) -> (res: Result<
    NumberResponse,
    ContractError,
>)
    ensures
        res == number(entries(*storage)),
{
    match msg {
        CalleeQueryMsg::Number {  } => {
            let value = counter(storage)?;
            Ok(NumberResponse { value })
        },
    }
}

/// The direct call `increment`: what `Increment` does, without a message.
///
/// A failure comes back as a value, and whoever made the call decides. The
/// caller of this library never recovers from it: its transition fails with
/// the same error.
pub fn increment(storage: &mut MemoryStorage, by: i32) -> (res: Result<(), ContractError>)
    ensures
        match incremented(entries(*old(storage)), by) {
            Ok(_) => res == Ok::<(), ContractError>(()),
            Err(e) => res == Err::<(), ContractError>(e),
        },
        entries(*final(storage)) == after_increment(entries(*old(storage)), by),
{
    crate::counter::increment(storage, by)?;
    Ok(())
}

/// The direct call `counter`: what `Number` answers, as a bare value.
pub fn counter(storage: &MemoryStorage) -> (res: Result<i32, ContractError>)
    ensures
        res == stored_counter(entries(*storage)),
{
    crate::counter::read(storage)
}

} // verus!
