use vstd::prelude::*;

verus! {

/// Why an entry of either component fails. Every failure aborts the
/// transition it occurs in; none leaves a partial write behind.
#[derive(Clone, Copy, Debug, PartialEq, Eq, Structural)]
pub enum ContractError {
    /// A record was absent when a read was attempted: the component was
    /// never initialized.
    Storage,
    /// Stored bytes do not decode: a counter that is not exactly four bytes
    /// long, or an address record that does not deserialize.
    Decoding,
    /// The increment would leave the signed 32-bit range.
    Overflow,
    /// An outgoing record could not be encoded.
    Serialization,
    /// The address names no live callee; this surfaces only when an
    /// invocation is attempted.
    Unresolved,
}

} // verus!
