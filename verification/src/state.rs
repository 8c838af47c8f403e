use vstd::prelude::*;

verus! {

/// Durable record of a pool: the outstanding liquidity-share supply and the
/// fee schedule applied to swap input amounts.
///
/// The reserve balances themselves are not part of this record; the custody
/// layer supplies them alongside it as a consistent snapshot.
pub struct PoolState {
    /// Total outstanding liquidity-share supply; 0 for an uninitialized pool.
    pub total_shares: u64,
    /// Numerator of the fee rate charged on swap input.
    pub fee_numerator: u64,
    /// Denominator of the fee rate; the rate is `fee_numerator / fee_denominator`.
    pub fee_denominator: u64,
}

impl PoolState {
    /// A well-formed fee schedule: the rate is defined and does not exceed 1.
    pub open spec fn wf(self) -> bool {
        self.fee_denominator > 0 && self.fee_numerator <= self.fee_denominator
    }
}

} // verus!
