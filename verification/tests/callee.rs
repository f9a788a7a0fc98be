use call_counter::callee::{counter, execute, increment, instantiate, query};
use call_counter::error::ContractError;
use call_counter::msg::{CalleeExecuteMsg, CalleeInstantiateMsg, CalleeQueryMsg, NumberResponse};
use call_counter::response::Response;
use cosmwasm_std::{MemoryStorage, Storage};

#[test]
fn instantiate_then_read() {
    for value in [0, 5, -5, i32::MAX, i32::MIN] {
        let mut storage = MemoryStorage::new();
        let response = instantiate(&mut storage, CalleeInstantiateMsg { value });
        assert_eq!(response, Ok(Response::default()));
        assert_eq!(counter(&storage), Ok(value));
        assert_eq!(query(&storage, CalleeQueryMsg::Number {}), Ok(NumberResponse { value }));
    }
}

#[test]
fn instantiate_answers_with_the_empty_response() {
    let mut storage = MemoryStorage::new();
    let response = instantiate(&mut storage, CalleeInstantiateMsg { value: 1 }).unwrap();
    assert!(response.messages.is_empty());
    assert!(response.attributes.is_empty());
}

#[test]
fn increment_message_then_read() {
    let mut storage = MemoryStorage::new();
    instantiate(&mut storage, CalleeInstantiateMsg { value: 5 }).unwrap();
    let response = execute(&mut storage, CalleeExecuteMsg::Increment { value: 3 });
    assert_eq!(response, Ok(Response::default()));
    assert_eq!(query(&storage, CalleeQueryMsg::Number {}), Ok(NumberResponse { value: 8 }));
    assert_eq!(counter(&storage), Ok(8));
}

#[test]
fn overflow_boundary() {
    let mut storage = MemoryStorage::new();
    instantiate(&mut storage, CalleeInstantiateMsg { value: i32::MAX }).unwrap();
    assert_eq!(
        execute(&mut storage, CalleeExecuteMsg::Increment { value: 1 }),
        Err(ContractError::Overflow)
    );
    assert_eq!(counter(&storage), Ok(i32::MAX));
    assert_eq!(increment(&mut storage, 1), Err(ContractError::Overflow));
    assert_eq!(counter(&storage), Ok(i32::MAX));
    assert_eq!(storage.get(b"number"), Some(i32::MAX.to_be_bytes().to_vec()));
}

#[test]
fn direct_call_and_message_leave_the_same_state() {
    let mut by_message = MemoryStorage::new();
    let mut by_call = MemoryStorage::new();
    instantiate(&mut by_message, CalleeInstantiateMsg { value: 40 }).unwrap();
    instantiate(&mut by_call, CalleeInstantiateMsg { value: 40 }).unwrap();
    execute(&mut by_message, CalleeExecuteMsg::Increment { value: 2 }).unwrap();
    assert_eq!(increment(&mut by_call, 2), Ok(()));
    assert_eq!(by_message.get(b"number"), by_call.get(b"number"));
    assert_eq!(counter(&by_call), Ok(42));
}

#[test]
fn direct_call_and_query_read_the_same_value() {
    let mut storage = MemoryStorage::new();
    instantiate(&mut storage, CalleeInstantiateMsg { value: -17 }).unwrap();
    let answer = query(&storage, CalleeQueryMsg::Number {}).unwrap();
    assert_eq!(Ok(answer.value), counter(&storage));
    assert_eq!(answer.value, -17);
}

#[test]
fn uninitialized_read() {
    let storage = MemoryStorage::new();
    assert_eq!(query(&storage, CalleeQueryMsg::Number {}), Err(ContractError::Storage));
    assert_eq!(counter(&storage), Err(ContractError::Storage));
    assert_ne!(counter(&storage), Ok(0));
}

#[test]
fn uninitialized_increment() {
    let mut storage = MemoryStorage::new();
    assert_eq!(
        execute(&mut storage, CalleeExecuteMsg::Increment { value: 1 }),
        Err(ContractError::Storage)
    );
    assert_eq!(increment(&mut storage, 1), Err(ContractError::Storage));
    assert_eq!(storage.get(b"number"), None);
}

#[test]
fn corrupt_storage() {
    let mut storage = MemoryStorage::new();
    storage.set(b"number", &[0, 0, 0]);
    assert_eq!(query(&storage, CalleeQueryMsg::Number {}), Err(ContractError::Decoding));
    assert_eq!(counter(&storage), Err(ContractError::Decoding));
    assert_eq!(
        execute(&mut storage, CalleeExecuteMsg::Increment { value: 1 }),
        Err(ContractError::Decoding)
    );
    assert_eq!(storage.get(b"number"), Some(vec![0u8, 0, 0]));
}

#[test]
fn instantiate_overwrites_what_was_there() {
    let mut storage = MemoryStorage::new();
    storage.set(b"number", &[9, 9]);
    instantiate(&mut storage, CalleeInstantiateMsg { value: 3 }).unwrap();
    assert_eq!(counter(&storage), Ok(3));
}
