//! The linear price curve and the trapezoidal pricing of a trade.

use vstd::prelude::*;
use crate::error::TokenError;

verus! {

/// The priced result of sweeping the curve over a proposed change of supply.
#[derive(Clone, Copy, Debug, PartialEq, Eq, Structural)]
pub struct Quote {
    pub cost: i128,
    pub price_before: i128,
    pub price_after: i128,
}

/// Unit price at supply level `supply`.
pub open spec fn price_at(base: int, slope: int, supply: int) -> int {
    base + slope * supply
}

/// Cost of `amount` units between two curve prices: the floored average of
/// the two prices, times the amount. The floor is taken before multiplying.
pub open spec fn trade_cost(price_before: int, price_after: int, amount: int) -> int {
    ((price_before + price_after) / 2) * amount
}

/// Whether `x` is a value of `i128`.
pub open spec fn fits(x: int) -> bool {
    i128::MIN <= x <= i128::MAX
}

/// Supply level at the low end of the interval a trade sweeps.
pub open spec fn sweep_start(supply: int, amount: int, is_buy: bool) -> int {
    if is_buy { supply } else { supply - amount }
}

/// Supply level at the high end of the interval a trade sweeps.
pub open spec fn sweep_end(supply: int, amount: int, is_buy: bool) -> int {
    if is_buy { supply + amount } else { supply }
}

/// Whether every value met while pricing the sweep from `start` to `end`
/// is a value of `i128`.
pub open spec fn sweep_fits(base: int, slope: int, start: int, end: int, amount: int) -> bool {
    let before = price_at(base, slope, start);
    let after = price_at(base, slope, end);
    &&& fits(start)
    &&& fits(end)
    &&& fits(slope * start)
    &&& fits(before)
    &&& fits(slope * end)
    &&& fits(after)
    &&& fits(before + after)
    &&& fits(trade_cost(before, after, amount))
}

/// What pricing a trade of `amount` units at supply `supply` yields.
pub open spec fn quote_of(base: int, slope: int, supply: int, amount: int, is_buy: bool) -> Result<
    Quote,
    TokenError,
> {
    let start = sweep_start(supply, amount, is_buy);
    let end = sweep_end(supply, amount, is_buy);
    let before = price_at(base, slope, start);
    let after = price_at(base, slope, end);
    if start < 0 {
        Err(TokenError::InsufficientSupply)
    } else if !sweep_fits(base, slope, start, end, amount) {
        Err(TokenError::ArithmeticOverflow)
    } else {
        Ok(
            Quote {
                cost: trade_cost(before, after, amount) as i128,
                price_before: before as i128,
                price_after: after as i128,
            },
        )
    }
}

/// On a curve with a positive base and a slope that is not negative, a
/// trade of a positive amount that starts at a supply of zero or more has a
/// positive cost, and its two prices are positive and in order.
pub proof fn lemma_cost_positive(base: int, slope: int, start: int, end: int, amount: int)
    requires
        base > 0,
        slope >= 0,
        0 <= start <= end,
        amount > 0,
    ensures
        0 < price_at(base, slope, start) <= price_at(base, slope, end),
        trade_cost(price_at(base, slope, start), price_at(base, slope, end), amount) >= amount,
{
    assert(0 <= slope * start <= slope * end) by (nonlinear_arith)
        requires
            slope >= 0,
            0 <= start <= end,
    ;
    let average = (price_at(base, slope, start) + price_at(base, slope, end)) / 2;
    assert(average * amount >= amount) by (nonlinear_arith)
        requires
            average >= 1,
            amount > 0,
    ;
}

} // verus!
