//! The key-value region that the host gives each component instance.
//!
//! The region is `cosmwasm_std::MemoryStorage`. Verus does not look inside
//! it: what it holds is named by [`entries`], and the three functions below
//! state what `new`, `get` and `set` do to those entries.

use cosmwasm_std::MemoryStorage;
use cosmwasm_std::Storage;
use vstd::prelude::*;

verus! {

#[verifier::external_type_specification]
#[verifier::external_body]
pub struct ExMemoryStorage(cosmwasm_std::MemoryStorage);

/// The entries of a region: each key that is present, with its value.
pub uninterp spec fn entries(storage: MemoryStorage) -> Map<Seq<u8>, Seq<u8>>;

/// The entries of a region that holds nothing.
pub open spec fn no_entries() -> Map<Seq<u8>, Seq<u8>> {
    Map::empty()
}

/// `MemoryStorage::new`: a region without entries.
#[verifier::external_body]
pub(crate) fn storage_new() -> (region: MemoryStorage)
    ensures
        entries(region) == no_entries(),
{
    MemoryStorage::new()
}

/// `Storage::get` of `MemoryStorage`: a copy of the value under `key`, or
/// `None` where the key is absent.
#[verifier::external_body]
pub(crate) fn storage_get(storage: &MemoryStorage, key: &[u8]) -> (value: Option<Vec<u8>>)
    ensures
        value is Some <==> entries(*storage).contains_key(key@),
        value matches Some(v) ==> v@ == entries(*storage)[key@],
{
    storage.get(key)
}

/// `Storage::set` of `MemoryStorage`: `key` now maps to `value`, every other
/// entry stays. The outside function panics on an empty value, which
/// `requires` leaves out.
#[verifier::external_body]
pub(crate) fn storage_set(storage: &mut MemoryStorage, key: &[u8], value: &[u8])
    requires
        value@.len() > 0,
    ensures
        entries(*final(storage)) == entries(*old(storage)).insert(key@, value@),
{
    storage.set(key, value)
}

} // verus!
