//! The counter store: one signed 32-bit value, persisted under a fixed key
//! as four bytes, most significant first.

use crate::error::ContractError;
use crate::storage::{entries, storage_get, storage_set};
use cosmwasm_std::MemoryStorage;
use vstd::prelude::*;
use vstd::string::*;

verus! {

/// The key of the counter record.
pub open spec fn counter_key() -> Seq<u8> {
    "number".spec_bytes()
}

/// The 32-bit pattern of a signed value, as a number from 0 up to and
/// excluding 2^32 (two's complement).
pub open spec fn pattern(value: i32) -> int {
    if value < 0 {
        value + 0x1_0000_0000
    } else {
        value as int
    }
}

/// The four bytes of a value, most significant first.
pub open spec fn be_bytes(value: i32) -> Seq<u8> {
    seq![
        (pattern(value) / 0x100_0000) as u8,
        (pattern(value) / 0x1_0000 % 0x100) as u8,
        (pattern(value) / 0x100 % 0x100) as u8,
        (pattern(value) % 0x100) as u8,
    ]
}

/// The value that four bytes stand for, most significant first.
pub open spec fn be_value(bytes: Seq<u8>) -> int {
    let pattern = bytes[0] * 0x100_0000 + bytes[1] * 0x1_0000 + bytes[2] * 0x100 + bytes[3];
    if pattern >= 0x8000_0000 {
        pattern - 0x1_0000_0000
    } else {
        pattern
    }
}

/// What a stored record decodes to: a value where it is exactly four bytes
/// long, `Decoding` for every other length.
pub open spec fn decoded(bytes: Seq<u8>) -> Result<i32, ContractError> {
    if bytes.len() == 4 {
        Ok(be_value(bytes) as i32)
    } else {
        Err(ContractError::Decoding)
    }
}

/// What `read` finds in a region.
pub open spec fn stored_counter(region: Map<Seq<u8>, Seq<u8>>) -> Result<i32, ContractError> {
    if region.contains_key(counter_key()) {
        decoded(region[counter_key()])
    } else {
        Err(ContractError::Storage)
    }
}

/// A region once `write` has stored `value` in it.
pub open spec fn with_counter(region: Map<Seq<u8>, Seq<u8>>, value: i32) -> Map<Seq<u8>, Seq<u8>> {
    region.insert(counter_key(), be_bytes(value))
}

/// What `increment` returns: the new value, `Overflow` where the sum leaves
/// the signed 32-bit range, or the error of the read.
pub open spec fn incremented(region: Map<Seq<u8>, Seq<u8>>, by: i32) -> Result<i32, ContractError> {
    match stored_counter(region) {
        Err(e) => Err(e),
        Ok(current) => if i32::MIN <= current + by <= i32::MAX {
            Ok((current + by) as i32)
        } else {
            Err(ContractError::Overflow)
        },
    }
}

/// A region once `increment` has run on it: the new value is stored where
/// there is one, and nothing has changed where the increment failed.
pub open spec fn after_increment(region: Map<Seq<u8>, Seq<u8>>, by: i32) -> Map<Seq<u8>, Seq<u8>> {
    match incremented(region, by) {
        Ok(value) => with_counter(region, value),
        Err(_) => region,
    }
}

/// Encodes a value as its four bytes.
pub fn encode(value: i32) -> (bytes: Vec<u8>)
    ensures
        bytes@ == be_bytes(value),
{
    let pattern: u32 = if value < 0 {
        (value as i64 + 0x1_0000_0000) as u32
    } else {
        value as u32
    };
    let mut bytes: Vec<u8> = Vec::new();
    bytes.push((pattern / 0x100_0000) as u8);
    bytes.push((pattern / 0x1_0000 % 0x100) as u8);
    bytes.push((pattern / 0x100 % 0x100) as u8);
    bytes.push((pattern % 0x100) as u8);
    assert(bytes@ =~= be_bytes(value));
    bytes
}

/// Decodes a stored record. A record of any length but four is refused: it
/// is neither cut nor padded.
pub fn decode(bytes: &[u8]) -> (res: Result<i32, ContractError>)
    ensures
        res == decoded(bytes@),
{
    if bytes.len() != 4 {
        return Err(ContractError::Decoding);
    }
    let pattern: u32 = bytes[0] as u32 * 0x100_0000 + bytes[1] as u32 * 0x1_0000 + bytes[2] as u32
        * 0x100 + bytes[3] as u32;
    if pattern >= 0x8000_0000 {
        Ok((pattern as i64 - 0x1_0000_0000) as i32)
    } else {
        Ok(pattern as i32)
    }
}

/// Decoding undoes encoding.
pub proof fn lemma_decode_encode(value: i32)
    ensures
        decoded(be_bytes(value)) == Ok::<i32, ContractError>(value),
{
}

/// Stores `value` as the counter. A write cannot fail.
pub fn write(storage: &mut MemoryStorage, value: i32)
    ensures
        entries(*final(storage)) == with_counter(entries(*old(storage)), value),
{
    let bytes = encode(value);
    storage_set(storage, "number".as_bytes(), bytes.as_slice());
}

/// Reads the counter.
///
/// Fails with `Storage` where no counter was ever written, and with
/// `Decoding` where the record is not exactly four bytes long.
pub fn read(storage: &MemoryStorage) -> (res: Result<i32, ContractError>)
    ensures
        res == stored_counter(entries(*storage)),
{
    match storage_get(storage, "number".as_bytes()) {
        None => Err(ContractError::Storage),
        Some(bytes) => decode(bytes.as_slice()),
    }
}

/// Adds `by` to the counter and returns the new value.
///
/// Fails as `read` does, and with `Overflow` where the sum leaves the signed
/// 32-bit range. A failed increment writes nothing.
pub fn increment(storage: &mut MemoryStorage, by: i32) -> (res: Result<i32, ContractError>)
    ensures
        res == incremented(entries(*old(storage)), by),
        entries(*final(storage)) == after_increment(entries(*old(storage)), by),
{
    let current = read(storage)?;
    match current.checked_add(by) {
        None => Err(ContractError::Overflow),
        Some(value) => {
            write(storage, value);
            Ok(value)
        },
    }
}

} // verus!
