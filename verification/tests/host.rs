use call_counter::caller::ReadPlan;
use call_counter::error::ContractError;
use call_counter::host::Host;
use call_counter::msg::{
    CalleeExecuteMsg, CalleeInstantiateMsg, CalleeQueryMsg, ExecuteMsg, InstantiateMsg,
    NumberResponse, QueryMsg,
};
use call_counter::response::{Attribute, ReplyOn, Response, SubMsg, SubMsgResult};
use cosmwasm_std::Storage;

fn deployed(initial: i32) -> Host {
    let mut host = Host::new("callee".to_string());
    host.instantiate_callee(CalleeInstantiateMsg { value: initial }).unwrap();
    host.instantiate_caller(InstantiateMsg { callee_addr: "callee".to_string() }).unwrap();
    host
}

fn stored(host: &Host) -> Option<Vec<u8>> {
    host.callee.get(b"number")
}

#[test]
fn new_host_is_uninitialized() {
    let host = Host::new("callee".to_string());
    assert_eq!(host.callee_addr, "callee");
    assert_eq!(host.callee.get(b"number"), None);
    assert_eq!(host.caller.get(b"counter-address"), None);
}

#[test]
fn example_scenario() {
    let mut host = Host::new("callee".to_string());
    host.instantiate_callee(CalleeInstantiateMsg { value: 5 }).unwrap();
    host.instantiate_caller(InstantiateMsg { callee_addr: "callee".to_string() }).unwrap();
    let response = host.execute(ExecuteMsg::SubmsgReplyIncrement { value: 3 }).unwrap();
    assert_eq!(stored(&host), Some(vec![0u8, 0, 0, 8]));
    assert_eq!(
        response.attributes,
        vec![
            Attribute { key: "value_by_dynamic".to_string(), value: "8".to_string() },
            Attribute { key: "value_by_query".to_string(), value: "8".to_string() },
        ]
    );
    assert!(response.messages.is_empty());
}

#[test]
fn add_increments_through_the_direct_call() {
    let mut host = deployed(5);
    assert_eq!(host.execute(ExecuteMsg::Add { value: 3 }), Ok(Response::default()));
    assert_eq!(stored(&host), Some(vec![0u8, 0, 0, 8]));
    assert_eq!(host.query(QueryMsg::Counter {}), Ok(NumberResponse { value: 8 }));
}

#[test]
fn channel_equivalence() {
    for (initial, by) in [(5, 3), (0, 0), (-4, 9), (100, -250), (i32::MAX - 1, 1), (i32::MIN, 7)] {
        let mut direct = deployed(initial);
        let mut dispatched = deployed(initial);
        direct.execute(ExecuteMsg::Add { value: by }).unwrap();
        dispatched.execute(ExecuteMsg::SubmsgReplyIncrement { value: by }).unwrap();
        assert_eq!(stored(&direct), stored(&dispatched));
        assert_eq!(stored(&direct), Some((initial + by).to_be_bytes().to_vec()));
        assert_eq!(direct.caller.get(b"counter-address"), dispatched.caller.get(b"counter-address"));
    }
}

#[test]
fn both_reads_agree() {
    let host = deployed(-31);
    let by_call = host.read(&ReadPlan::Counter { callee: "callee".to_string() });
    let by_query = host.read(&ReadPlan::Query {
        callee: "callee".to_string(),
        msg: CalleeQueryMsg::Number {},
    });
    assert_eq!(by_call, Ok(-31));
    assert_eq!(by_query, Ok(-31));
    assert_eq!(host.query(QueryMsg::Counter {}), Ok(NumberResponse { value: -31 }));
    assert_eq!(host.query(QueryMsg::CounterDyn {}), Ok(NumberResponse { value: -31 }));
}

#[test]
fn reply_ordering() {
    let mut host = deployed(40);
    let response = host.execute(ExecuteMsg::SubmsgReplyIncrement { value: 2 }).unwrap();
    assert_eq!(response.attributes[0].key, "value_by_dynamic");
    assert_eq!(response.attributes[0].value, "42");
    assert_eq!(response.attributes[1].key, "value_by_query");
    assert_eq!(response.attributes[1].value, "42");
    assert_eq!(host.query(QueryMsg::CounterDyn {}), Ok(NumberResponse { value: 42 }));
}

#[test]
fn reply_ordering_with_negative_sum() {
    let mut host = deployed(1);
    let response = host.execute(ExecuteMsg::SubmsgReplyIncrement { value: -13 }).unwrap();
    assert_eq!(response.attributes[0].value, "-12");
    assert_eq!(response.attributes[1].value, "-12");
}

#[test]
fn add_overflow_is_fatal_and_changes_nothing() {
    let mut host = deployed(i32::MAX);
    assert_eq!(host.execute(ExecuteMsg::Add { value: 1 }), Err(ContractError::Overflow));
    assert_eq!(stored(&host), Some(i32::MAX.to_be_bytes().to_vec()));
    assert_eq!(host.caller.get(b"counter-address"), Some(b"\"callee\"".to_vec()));
}

#[test]
fn dispatched_overflow_reaches_the_reply_which_reads_the_old_value() {
    let mut host = deployed(i32::MAX);
    let response = host.execute(ExecuteMsg::SubmsgReplyIncrement { value: 1 }).unwrap();
    assert_eq!(
        response.attributes,
        vec![
            Attribute { key: "value_by_dynamic".to_string(), value: "2147483647".to_string() },
            Attribute { key: "value_by_query".to_string(), value: "2147483647".to_string() },
        ]
    );
    assert_eq!(stored(&host), Some(i32::MAX.to_be_bytes().to_vec()));
}

#[test]
fn uninitialized_callee() {
    let mut host = Host::new("callee".to_string());
    host.instantiate_caller(InstantiateMsg { callee_addr: "callee".to_string() }).unwrap();
    assert_eq!(host.query(QueryMsg::Counter {}), Err(ContractError::Storage));
    assert_eq!(host.query(QueryMsg::CounterDyn {}), Err(ContractError::Storage));
    assert_eq!(host.execute(ExecuteMsg::Add { value: 1 }), Err(ContractError::Storage));
    assert_eq!(
        host.execute(ExecuteMsg::SubmsgReplyIncrement { value: 1 }),
        Err(ContractError::Storage)
    );
    assert_eq!(stored(&host), None);
}

#[test]
fn uninitialized_caller() {
    let mut host = Host::new("callee".to_string());
    host.instantiate_callee(CalleeInstantiateMsg { value: 5 }).unwrap();
    assert_eq!(host.execute(ExecuteMsg::Add { value: 1 }), Err(ContractError::Storage));
    assert_eq!(
        host.execute(ExecuteMsg::SubmsgReplyIncrement { value: 1 }),
        Err(ContractError::Storage)
    );
    assert_eq!(host.query(QueryMsg::Counter {}), Err(ContractError::Storage));
    assert_eq!(stored(&host), Some(vec![0u8, 0, 0, 5]));
}

#[test]
fn corrupt_counter_behind_both_channels() {
    let mut host = deployed(5);
    host.callee.set(b"number", &[0, 5]);
    assert_eq!(host.query(QueryMsg::Counter {}), Err(ContractError::Decoding));
    assert_eq!(host.query(QueryMsg::CounterDyn {}), Err(ContractError::Decoding));
    assert_eq!(host.execute(ExecuteMsg::Add { value: 1 }), Err(ContractError::Decoding));
    assert_eq!(
        host.execute(ExecuteMsg::SubmsgReplyIncrement { value: 1 }),
        Err(ContractError::Decoding)
    );
    assert_eq!(stored(&host), Some(vec![0u8, 5]));
}

#[test]
fn reference_to_no_live_callee() {
    let mut host = Host::new("callee".to_string());
    host.instantiate_callee(CalleeInstantiateMsg { value: 5 }).unwrap();
    host.instantiate_caller(InstantiateMsg { callee_addr: "elsewhere".to_string() }).unwrap();
    assert_eq!(host.execute(ExecuteMsg::Add { value: 1 }), Err(ContractError::Unresolved));
    assert_eq!(
        host.execute(ExecuteMsg::SubmsgReplyIncrement { value: 1 }),
        Err(ContractError::Unresolved)
    );
    assert_eq!(host.query(QueryMsg::Counter {}), Err(ContractError::Unresolved));
    assert_eq!(host.query(QueryMsg::CounterDyn {}), Err(ContractError::Unresolved));
    assert_eq!(stored(&host), Some(vec![0u8, 0, 0, 5]));
}

#[test]
fn dispatch_reports_how_the_sub_call_ended() {
    let mut host = deployed(10);
    let sub = SubMsg {
        id: 0,
        contract_addr: "callee".to_string(),
        msg: CalleeExecuteMsg::Increment { value: 5 },
        reply_on: ReplyOn::Always,
    };
    assert_eq!(host.dispatch(&sub), SubMsgResult::Success);
    assert_eq!(stored(&host), Some(vec![0u8, 0, 0, 15]));
    let too_much = SubMsg { msg: CalleeExecuteMsg::Increment { value: i32::MAX }, ..sub.clone() };
    assert_eq!(host.dispatch(&too_much), SubMsgResult::Failure);
    assert_eq!(stored(&host), Some(vec![0u8, 0, 0, 15]));
    let astray = SubMsg { contract_addr: "nobody".to_string(), ..sub };
    assert_eq!(host.dispatch(&astray), SubMsgResult::Failure);
    assert_eq!(stored(&host), Some(vec![0u8, 0, 0, 15]));
}

#[test]
fn direct_increment_resolves_the_address() {
    let mut host = deployed(10);
    assert_eq!(host.increment(&"callee".to_string(), -10), Ok(()));
    assert_eq!(stored(&host), Some(vec![0u8, 0, 0, 0]));
    assert_eq!(host.increment(&"nobody".to_string(), 1), Err(ContractError::Unresolved));
    assert_eq!(stored(&host), Some(vec![0u8, 0, 0, 0]));
}

#[test]
fn repeated_requests_accumulate() {
    let mut host = deployed(0);
    for step in 1..=10 {
        host.execute(ExecuteMsg::Add { value: step }).unwrap();
        host.execute(ExecuteMsg::SubmsgReplyIncrement { value: step }).unwrap();
    }
    assert_eq!(host.query(QueryMsg::Counter {}), Ok(NumberResponse { value: 110 }));
}

#[test]
fn instantiate_caller_always_succeeds() {
    for address in ["callee", "", "\"quoted\"", "back\\slash", "tab\there", "\u{1}\u{1f}", "ünï\u{10348}"] {
        let mut host = Host::new(address.to_string());
        host.instantiate_callee(CalleeInstantiateMsg { value: 5 }).unwrap();
        assert_eq!(
            host.instantiate_caller(InstantiateMsg { callee_addr: address.to_string() }),
            Ok(Response::default())
        );
        assert_eq!(call_counter::caller::load_callee(&host.caller), Ok(address.to_string()));
        assert_eq!(host.query(QueryMsg::Counter {}), Ok(NumberResponse { value: 5 }));
    }
}
