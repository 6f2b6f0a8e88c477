//! Errors of the adapter.

use vstd::prelude::*;

verus! {

/// Why an operation of the adapter failed.
#[derive(Clone, Copy, Debug, PartialEq, Eq, Structural)]
pub enum AdapterError {
    /// An account's bytes do not have the expected layout or discriminator.
    Schema,
    /// The operation needs a synced snapshot and the adapter has none.
    State,
    /// The pricing curve cannot trade these amounts: a zero reserve or
    /// amount, an overflowing product, or an output beyond the reserve.
    Curve,
    /// A malformed transfer-fee extension, or a fee larger than the amount.
    FeeConfig,
    /// The mint given is neither of the pool's two mints.
    InvalidMint,
    /// Only exact-input quotes are offered.
    UnsupportedMode,
}

} // verus!
