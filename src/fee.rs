use vstd::prelude::*;

verus! {

/// Highest fee rate, in basis points (25%).
pub const MAX_FEE_BPS: u16 = 2500;

/// Basis points in a whole.
pub const BPS_DENOMINATOR: u128 = 10000;

/// The fee on `amount` at `fee_bps` basis points, rounded down.
pub open spec fn fee_of(amount: u64, fee_bps: u16) -> int {
    (amount * fee_bps) / 10000
}

/// Under the ceiling the fee is at most a quarter of the amount, so it fits.
pub proof fn lemma_fee_bounded(amount: u64, fee_bps: u16)
    requires
        fee_bps <= MAX_FEE_BPS,
    ensures
        0 <= fee_of(amount, fee_bps) <= amount,
{
    assert(0 <= amount * fee_bps <= amount * 2500) by (nonlinear_arith)
        requires
            fee_bps <= 2500,
    ;
}

/// The fee on `amount`, computed in 128 bits and narrowed back; `None` when it
/// does not fit in 64 bits.
pub fn compute_fee(amount: u64, fee_bps: u16) -> (r: Option<u64>)
    ensures
        r is None <==> fee_of(amount, fee_bps) > u64::MAX,
        r matches Some(f) ==> f == fee_of(amount, fee_bps),
{
    assert(0 <= amount * fee_bps <= 0xffff_ffff_ffff_ffffu64 * 0xffffu64) by (nonlinear_arith);
    let product: u128 = (amount as u128) * (fee_bps as u128);
    let fee: u128 = product / BPS_DENOMINATOR;
    if fee > u64::MAX as u128 {
        None
    } else {
        Some(fee as u64)
    }
}

} // verus!
