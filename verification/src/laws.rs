//! What holds of the two components and of the protocol between them, for
//! every state and every input.

use crate::callee::number;
use crate::caller::{observed_values, ReadPlanView};
use crate::counter::{
    after_increment, counter_key, incremented, lemma_decode_encode, stored_counter, with_counter,
};
use crate::error::ContractError;
use crate::host::{after_execute, executed, linked, observed, queried, HostView};
use crate::msg::{CalleeQueryMsg, ExecuteMsg, NumberResponse, QueryMsg};
use crate::response::ResponseView;
use vstd::prelude::*;

verus! {

/// Once the callee has been initialized with a value, a read returns that
/// value, through the query and through the direct call alike, whatever the
/// region held before.
pub proof fn lemma_initialize_then_read(region: Map<Seq<u8>, Seq<u8>>, value: i32)
    ensures
        stored_counter(with_counter(region, value)) == Ok::<i32, ContractError>(value),
        number(with_counter(region, value)) == Ok::<NumberResponse, ContractError>(
            NumberResponse { value },
        ),
{
    lemma_decode_encode(value);
}

/// An increment that stays in range returns the sum, and a read after it
/// returns the sum.
pub proof fn lemma_increment_then_read(region: Map<Seq<u8>, Seq<u8>>, current: i32, by: i32)
    requires
        stored_counter(region) == Ok::<i32, ContractError>(current),
        i32::MIN <= current + by <= i32::MAX,
    ensures
        incremented(region, by) == Ok::<i32, ContractError>((current + by) as i32),
        stored_counter(after_increment(region, by)) == Ok::<i32, ContractError>(
            (current + by) as i32,
        ),
{
    lemma_decode_encode((current + by) as i32);
}

/// An increment whose sum leaves the signed 32-bit range fails with
/// `Overflow` and writes nothing: the region is as it was.
pub proof fn lemma_overflow_writes_nothing(region: Map<Seq<u8>, Seq<u8>>, current: i32, by: i32)
    requires
        stored_counter(region) == Ok::<i32, ContractError>(current),
        current + by < i32::MIN || current + by > i32::MAX,
    ensures
        incremented(region, by) == Err::<i32, ContractError>(ContractError::Overflow),
        after_increment(region, by) == region,
{
}

/// An increment that fails, for whatever reason, writes nothing.
pub proof fn lemma_failed_increment_writes_nothing(region: Map<Seq<u8>, Seq<u8>>, by: i32)
    requires
        incremented(region, by) is Err,
    ensures
        after_increment(region, by) == region,
{
}

/// On a callee that was never initialized, the query and the direct call
/// both fail with `Storage`. Neither answers with a default.
pub proof fn lemma_uninitialized_read_fails(region: Map<Seq<u8>, Seq<u8>>)
    requires
        !region.contains_key(counter_key()),
    ensures
        stored_counter(region) == Err::<i32, ContractError>(ContractError::Storage),
        number(region) == Err::<NumberResponse, ContractError>(ContractError::Storage),
{
}

/// A counter record of any length but four makes every read fail with
/// `Decoding`, and every increment with it.
pub proof fn lemma_corrupt_counter_fails(region: Map<Seq<u8>, Seq<u8>>, by: i32)
    requires
        region.contains_key(counter_key()),
        region[counter_key()].len() != 4,
    ensures
        stored_counter(region) == Err::<i32, ContractError>(ContractError::Decoding),
        number(region) == Err::<NumberResponse, ContractError>(ContractError::Decoding),
        incremented(region, by) == Err::<i32, ContractError>(ContractError::Decoding),
        after_increment(region, by) == region,
{
}

/// The two channels agree. On a callee that holds `current`, the direct call
/// and the query both read `current`. After `Add` through the direct call,
/// and after `SubmsgReplyIncrement` through the dispatched sub-call, the
/// callee holds the same sum, and the two deployments are the same.
pub proof fn lemma_channel_equivalence(host: HostView, current: i32, by: i32)
    requires
        linked(host),
        stored_counter(host.callee) == Ok::<i32, ContractError>(current),
        i32::MIN <= current + by <= i32::MAX,
    ensures
        observed(host, ReadPlanView::Counter { callee: host.callee_addr }) == Ok::<
            i32,
            ContractError,
        >(current),
        observed(
            host,
            ReadPlanView::Query { callee: host.callee_addr, msg: CalleeQueryMsg::Number {  } },
        ) == Ok::<i32, ContractError>(current),
        queried(host, QueryMsg::Counter {  }) == queried(host, QueryMsg::CounterDyn {  }),
        executed(host, ExecuteMsg::Add { value: by }) is Ok,
        executed(host, ExecuteMsg::SubmsgReplyIncrement { value: by }) is Ok,
        stored_counter(after_execute(host, ExecuteMsg::Add { value: by }).callee) == Ok::<
            i32,
            ContractError,
        >((current + by) as i32),
        after_execute(host, ExecuteMsg::SubmsgReplyIncrement { value: by }) == after_execute(
            host,
            ExecuteMsg::Add { value: by },
        ),
{
    lemma_decode_encode((current + by) as i32);
}

/// The reply sees the sub-call's effect. Where `SubmsgReplyIncrement` runs on
/// a callee that holds `current`, the reply reads the sum through both
/// channels, and the transaction answers with the two attributes that carry
/// it.
pub proof fn lemma_reply_observes_increment(host: HostView, current: i32, by: i32)
    requires
        linked(host),
        stored_counter(host.callee) == Ok::<i32, ContractError>(current),
        i32::MIN <= current + by <= i32::MAX,
    ensures
        executed(host, ExecuteMsg::SubmsgReplyIncrement { value: by }) == Ok::<
            ResponseView,
            ContractError,
        >(observed_values((current + by) as i32, (current + by) as i32)),
        stored_counter(
            after_execute(host, ExecuteMsg::SubmsgReplyIncrement { value: by }).callee,
        ) == Ok::<i32, ContractError>((current + by) as i32),
{
    lemma_decode_encode((current + by) as i32);
}

/// The reply does not branch on how the sub-call ended. Where the
/// dispatched increment overflows, the sub-call fails and leaves the counter
/// as it was, the reply reads that value through both channels, and the
/// request succeeds with the two attributes that carry it.
pub proof fn lemma_reply_after_failed_increment(host: HostView, current: i32, by: i32)
    requires
        linked(host),
        stored_counter(host.callee) == Ok::<i32, ContractError>(current),
        current + by < i32::MIN || current + by > i32::MAX,
    ensures
        executed(host, ExecuteMsg::SubmsgReplyIncrement { value: by }) == Ok::<
            ResponseView,
            ContractError,
        >(observed_values(current, current)),
        after_execute(host, ExecuteMsg::SubmsgReplyIncrement { value: by }) == host,
        executed(host, ExecuteMsg::Add { value: by }) == Err::<ResponseView, ContractError>(
            ContractError::Overflow,
        ),
        after_execute(host, ExecuteMsg::Add { value: by }) == host,
{
}

/// A request to the caller that fails leaves the whole deployment as it
/// was: no partial change of the counter is ever seen from outside.
pub proof fn lemma_failed_execute_changes_nothing(host: HostView, msg: ExecuteMsg)
    requires
        executed(host, msg) is Err,
    ensures
        after_execute(host, msg) == host,
{
}

/// The caller owns no counter: no request to it changes its own region or
/// the address of the callee, whichever channel it takes and however it
/// ends.
pub proof fn lemma_execute_leaves_caller(host: HostView, msg: ExecuteMsg)
    ensures
        after_execute(host, msg).caller == host.caller,
        after_execute(host, msg).callee_addr == host.callee_addr,
{
}

/// Neither channel runs on a caller that was never initialized, or whose
/// reference names no callee: the request fails and nothing changes.
pub proof fn lemma_unlinked_execute_fails(host: HostView, msg: ExecuteMsg)
    requires
        !linked(host),
    ensures
        executed(host, msg) is Err,
        after_execute(host, msg) == host,
{
}

} // verus!
