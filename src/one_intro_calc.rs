//! Integer arithmetic of the pool: fixed-point scale, ratio scaling and the
//! error codes of the quoting engine.
use vstd::prelude::*;

verus! {

/// Fixed-point scale: a ratio `r` stands for the fraction `r / PONE`.
pub const PONE: u64 = 1_000_000_000;

/// Largest share of the input-side reserve a single trade may take (50%).
pub const MAX_IN_RATIO: u64 = PONE / 2;

/// Largest share of the output-side reserve a single trade may take (50%).
pub const MAX_OUT_RATIO: u64 = PONE / 2;

/// Failures of the quoting engine.
#[derive(Clone, Copy, Debug, PartialEq, Eq, Structural)]
pub enum ErrorCode {
    /// Arithmetic could not be completed exactly.
    CalculationFailure,
    /// The requested output exceeds half of the output-side reserve.
    ValidationLiquidityTooBigTokenOutAmount,
    /// The requested trade amount is not positive.
    ValidationTooSmallTokenInAmount,
    /// The computed output amount is not positive.
    ValidationTooSmallTokenOutAmount,
    /// The pool's account was absent from the fetched accounts.
    StateNotFound,
    /// The pool's account data is shorter than a pool state.
    AccountDataTooShort,
}

/// `floor(amount * numerator / denominator)` over the integers.
pub open spec fn scaled(amount: u64, numerator: u64, denominator: u64) -> int
    recommends
        denominator > 0,
{
    (amount as int * numerator as int) / (denominator as int)
}

/// The result of `proportional` when it succeeds: `amount` itself for a zero
/// denominator, otherwise the floored scaled value.
pub open spec fn proportional_spec(amount: u64, numerator: u64, denominator: u64) -> int {
    if denominator == 0 {
        amount as int
    } else {
        scaled(amount, numerator, denominator)
    }
}

/// Whether `proportional` succeeds: the result fits in a `u64`.
pub open spec fn proportional_fits(amount: u64, numerator: u64, denominator: u64) -> bool {
    proportional_spec(amount, numerator, denominator) <= u64::MAX
}

/// Scales `amount` by `numerator / denominator`, rounding down, through a
/// 128-bit intermediate. A zero denominator leaves `amount` unchanged.
pub fn proportional(amount: u64, numerator: u64, denominator: u64) -> (r: Result<u64, ErrorCode>)
    ensures
        proportional_fits(amount, numerator, denominator) <==> r.is_ok(),
        r matches Ok(v) ==> v == proportional_spec(amount, numerator, denominator),
        r matches Err(e) ==> e == ErrorCode::CalculationFailure,
{
    if denominator == 0 {
        return Ok(amount);
    }
    proof {
        assert((amount as int) * (numerator as int) <= (u64::MAX as int) * (u64::MAX as int))
            by (nonlinear_arith)
            requires
                amount <= u64::MAX,
                numerator <= u64::MAX,
        ;
    }
    let product: u128 = (amount as u128) * (numerator as u128);
    let value: u128 = product / (denominator as u128);
    if value > u64::MAX as u128 {
        Err(ErrorCode::CalculationFailure)
    } else {
        Ok(value as u64)
    }
}

/// The value of `shares` out of `total_shares`, given that all shares are
/// worth `total_value`.
pub fn value_from_shares(shares: u64, total_value: u64, total_shares: u64) -> (r: Result<u64, ErrorCode>)
    ensures
        proportional_fits(shares, total_value, total_shares) <==> r.is_ok(),
        r matches Ok(v) ==> v == proportional_spec(shares, total_value, total_shares),
        r matches Err(e) ==> e == ErrorCode::CalculationFailure,
{
    proportional(shares, total_value, total_shares)
}

/// Direction in which a curve result is brought back to an integer amount.
#[derive(Clone, Copy, Debug, PartialEq, Eq, Structural)]
pub enum RoundDirection {
    Floor,
    Ceiling,
}

} // verus!
