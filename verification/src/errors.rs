use vstd::prelude::*;

verus! {

/// The two failure kinds the liquidity engine can raise. Both are terminal
/// for the operation in which they occur; neither is retryable.
#[derive(Clone, Copy, Debug, PartialEq, Eq, Structural)]
pub enum AMMError {
    /// Pool creation was attempted with the two asset mints out of canonical
    /// byte-wise order.
    InvalidMintOrder,
    /// A steady-state deposit authorized less of asset B than the
    /// ratio-preserving requirement.
    InsufficientFundsProvided,
}

} // verus!
