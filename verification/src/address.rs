//! The record under which the caller persists the address of its callee.
//!
//! The record is the JSON text that `cosmwasm_std` writes for an `Addr`. The
//! two directions are named here and written out nowhere: the library hands
//! the address to the outside crate and stores what comes back. What is
//! stated of them is that writing never fails and that reading undoes it.

use cosmwasm_std::Addr;
use cosmwasm_std::StdError;
use vstd::prelude::*;

verus! {

#[verifier::external_type_specification]
#[verifier::external_body]
pub struct ExStdError(cosmwasm_std::StdError);

/// The record that `cosmwasm_std::to_vec` writes for the address with this
/// text.
pub uninterp spec fn address_to_json(address: Seq<char>) -> Seq<u8>;

/// The text of the address that `cosmwasm_std::from_slice` reads from this
/// record; `None` where it reports an error.
pub uninterp spec fn address_from_json(record: Seq<u8>) -> Option<Seq<char>>;

/// `cosmwasm_std::to_vec` on an `Addr`: the JSON serialization of the
/// address. The record that comes back is the named one.
///
/// Three things are claimed of it, each as the serializer's source shows it.
/// It reports no error, whatever the text. The record opens and closes with
/// a quotation mark, so it holds at least two bytes. And the record reads
/// back as the address: the serializer escapes the quotation mark, the
/// backslash and the control characters and writes every other character as
/// it is, and the deserializer undoes exactly these escapes.
#[verifier::external_body]
#[allow(deprecated)]
pub(crate) fn encode_address(address: &str) -> (out: Result<Vec<u8>, StdError>)
    ensures
        out is Ok,
        out matches Ok(record) ==> record@ == address_to_json(address@),
        out matches Ok(record) ==> record@.len() >= 2,
        out matches Ok(record) ==> address_from_json(record@) == Some(address@),
{
    cosmwasm_std::to_vec(&Addr::unchecked(address))
}

/// `cosmwasm_std::from_slice` for an `Addr`: the address that the JSON text
/// in `record` holds, or the crate's error where it holds none.
#[verifier::external_body]
#[allow(deprecated)]
pub(crate) fn decode_address(record: &[u8]) -> (out: Result<String, StdError>)
    ensures
        out matches Ok(address) ==> address_from_json(record@) == Some(address@),
        out is Err ==> address_from_json(record@) is None,
{
    match cosmwasm_std::from_slice::<Addr>(record) {
        Ok(address) => Ok(address.into_string()),
        Err(err) => Err(err),
    }
}

} // verus!
