use vstd::prelude::*;

verus! {

/// Reasons an operation is rejected. Every error is detected before any state
/// mutation: on `Err` the pool state is unchanged and no fund movement is owed.
#[derive(Clone, Copy, Debug, PartialEq, Eq, Structural)]
pub enum PoolError {
    /// A caller-supplied amount exceeds the available funds or shares.
    InsufficientBalance,
    /// The deposit would mint zero shares.
    ZeroMintAmount,
    /// The withdrawal requests more shares than exist.
    BurnExceedsSupply,
    /// The swap output falls below the caller's minimum.
    SlippageExceeded,
    /// A checked arithmetic step overflows its 64-bit domain.
    ArithmeticOverflow,
}

} // verus!
