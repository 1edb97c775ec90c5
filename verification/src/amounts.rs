//! How an amount is divided between the two recipients.
//!
//! The first recipient gets its percentage of the amount, rounded down. The
//! second gets whatever is left, so that the two shares always add up to
//! the amount and the second recipient absorbs the rounding.

use vstd::prelude::*;
use crate::error::SplitError;

verus! {

/// The smallest amount that can be split.
pub const MINIMUM_SPLIT_AMOUNT: u64 = 1000;

/// `percentage` percent of `amount`, rounded down.
pub open spec fn share_of(amount: u64, percentage: u8) -> int {
    amount as int * percentage as int / 100
}

/// The two shares of `amount` when the first recipient holds `percentage`
/// percent. There are none when the first share would exceed the amount,
/// which takes a percentage above 100.
pub open spec fn split_of(amount: u64, percentage: u8) -> Result<(u64, u64), SplitError> {
    let first = share_of(amount, percentage);
    if first <= amount {
        Ok((first as u64, (amount - first) as u64))
    } else {
        Err(SplitError::MathOverflow)
    }
}

/// A percentage of at most 100 never takes more than the amount.
pub proof fn lemma_share_within_amount(amount: u64, percentage: u8)
    requires
        percentage <= 100,
    ensures
        0 <= share_of(amount, percentage) <= amount,
{
    assert(0 <= amount as int * percentage as int <= amount as int * 100) by (nonlinear_arith)
        requires
            0 <= percentage <= 100,
            0 <= amount,
    ;
}

/// Divides `amount` between the two recipients.
pub fn split_amounts(amount: u64, percentage: u8) -> (r: Result<(u64, u64), SplitError>)
    ensures
        r == split_of(amount, percentage),
        r matches Ok((amount1, amount2)) ==> amount1 + amount2 == amount && amount1 == share_of(
            amount,
            percentage,
        ),
{
    let wide_amount: u128 = amount as u128;
    let wide_percentage: u128 = percentage as u128;
    assert(0 <= wide_amount * wide_percentage <= 0xffff_ffff_ffff_ffff * 0xff) by (nonlinear_arith)
        requires
            0 <= wide_amount <= 0xffff_ffff_ffff_ffff,
            0 <= wide_percentage <= 0xff,
    ;
    let product: u128 = match wide_amount.checked_mul(wide_percentage) {
        Some(product) => product,
        None => {
            return Err(SplitError::MathOverflow);
        },
    };
    let share: u128 = match product.checked_div(100) {
        Some(share) => share,
        None => {
            return Err(SplitError::MathOverflow);
        },
    };
    if share > u64::MAX as u128 {
        return Err(SplitError::MathOverflow);
    }
    let amount1: u64 = share as u64;
    match amount.checked_sub(amount1) {
        Some(amount2) => Ok((amount1, amount2)),
        None => Err(SplitError::MathOverflow),
    }
}

} // verus!
