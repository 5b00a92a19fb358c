use crate::error::MarketplaceError;
use crate::state::marketplace::MAX_FEE_BPS;
use vstd::prelude::*;

verus! {

/// The highest fee rate under which a sale is settled, in basis points: 50%.
pub const FEE_CAP_BPS: u16 = 5000;

/// The number of basis points in the whole.
pub const BPS_DENOMINATOR: u64 = 10000;

/// How a price is divided between the treasury and the seller.
#[derive(Clone, Copy, Debug, PartialEq, Eq, Structural)]
pub struct FeeSplit {
    /// What the treasury receives.
    pub fee: u64,
    /// What the seller receives.
    pub seller_amount: u64,
}

/// The fee on `price` at `fee_bps` basis points, rounded down.
pub open spec fn fee_on(price: u64, fee_bps: u16) -> int {
    (price * fee_bps) / 10000
}

/// The division of `price` at the rate `fee_bps`, or the reason there is none:
/// the rate is above the cap, or the product of price and rate does not fit in
/// 64 bits.
pub open spec fn split(price: u64, fee_bps: u16) -> Result<FeeSplit, MarketplaceError> {
    if fee_bps > FEE_CAP_BPS {
        Err(MarketplaceError::FeeTooHigh)
    } else if price * fee_bps > u64::MAX {
        Err(MarketplaceError::MathOverflow)
    } else {
        Ok(
            FeeSplit {
                fee: fee_on(price, fee_bps) as u64,
                seller_amount: (price - fee_on(price, fee_bps)) as u64,
            },
        )
    }
}

/// The fee is the floor of the exact quotient, and never more than the price.
pub proof fn lemma_fee_bounds(price: u64, fee_bps: u16)
    requires
        fee_bps <= MAX_FEE_BPS,
    ensures
        0 <= fee_on(price, fee_bps) <= price,
        fee_on(price, fee_bps) * 10000 <= price * fee_bps < (fee_on(price, fee_bps) + 1) * 10000,
{
    let product = price * fee_bps;
    let fee = product / 10000;
    assert(0 <= product <= price * 10000) by (nonlinear_arith)
        requires
            product == price * fee_bps,
            0 <= fee_bps <= 10000,
            0 <= price,
    ;
    assert(fee * 10000 <= product < (fee + 1) * 10000 && 0 <= fee) by (nonlinear_arith)
        requires
            fee == product / 10000,
            0 <= product,
    ;
    assert(fee <= price) by (nonlinear_arith)
        requires
            fee * 10000 <= product,
            product <= price * 10000,
    ;
}

/// Divides `price` between treasury and seller at the rate `fee_bps`, with
/// checked 64-bit arithmetic throughout.
pub fn split_price(price: u64, fee_bps: u16) -> (r: Result<FeeSplit, MarketplaceError>)
    ensures
        r == split(price, fee_bps),
{
    if fee_bps > FEE_CAP_BPS {
        return Err(MarketplaceError::FeeTooHigh);
    }
    proof {
        lemma_fee_bounds(price, fee_bps);
    }
    let product = match (fee_bps as u64).checked_mul(price) {
        Some(p) => p,
        None => {
            assert(price * fee_bps == fee_bps * price) by (nonlinear_arith);
            return Err(MarketplaceError::MathOverflow);
        },
    };
    assert(product == price * fee_bps) by (nonlinear_arith)
        requires
            product == fee_bps * price,
    ;
    let fee = match product.checked_div(BPS_DENOMINATOR) {
        Some(f) => f,
        None => {
            return Err(MarketplaceError::MathOverflow);
        },
    };
    let seller_amount = match price.checked_sub(fee) {
        Some(s) => s,
        None => {
            return Err(MarketplaceError::MathOverflow);
        },
    };
    Ok(FeeSplit { fee, seller_amount })
}

} // verus!
