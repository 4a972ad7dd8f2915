//! What holds of the engine as a whole: statements over several operations
//! and over every state, proved from the definitions the contracts use.

use vstd::prelude::*;
use crate::address::Address;
use crate::balances::{holds, lemma_balance_at, lemma_row_within_total, total_of};
use crate::curve::{price_at, quote_of, Quote};
use crate::error::TokenError;
use crate::token::TokenView;

verus! {

/// Conservation: in every state the engine can be in, the balances add up to
/// the supply, the supply lies between zero and the cap, and no holder owns
/// a negative amount or more than the supply.
pub proof fn lemma_conservation(state: TokenView, who: Address)
    requires
        state.inv(),
    ensures
        total_of(state.holdings) == state.total_supply,
        0 <= state.total_supply,
        state.config is Some ==> state.total_supply <= state.config->0.max_supply,
        0 <= state.balance(who) <= state.total_supply,
{
    if holds(state.holdings, who) {
        let i = choose|i: int|
            0 <= i < state.holdings.len() && #[trigger] state.holdings[i].holder == who;
        lemma_balance_at(state.holdings, i);
        lemma_row_within_total(state.holdings, i);
    }
}

/// The pool is never negative, and a withdrawal that is not refused leaves
/// it so: it takes out no more than the pool holds.
pub proof fn lemma_liquidity_never_negative(
    state: TokenView,
    caller: Address,
    authorized: bool,
    amount: int,
)
    requires
        state.inv(),
    ensures
        state.liquidity >= 0,
        state.withdraw_refusal(caller, authorized, amount) is None ==> state.liquidity - amount
            >= 0,
{
}

/// The price does not fall as the supply grows, and rises with it where the
/// slope is positive.
pub proof fn lemma_price_monotonic(base: int, slope: int, lower: int, upper: int)
    requires
        slope >= 0,
        lower <= upper,
    ensures
        price_at(base, slope, lower) <= price_at(base, slope, upper),
        slope > 0 && lower < upper ==> price_at(base, slope, lower) < price_at(base, slope, upper),
{
    assert(slope * lower <= slope * upper) by (nonlinear_arith)
        requires
            slope >= 0,
            lower <= upper,
    ;
    if slope > 0 && lower < upper {
        assert(slope * lower < slope * upper) by (nonlinear_arith)
            requires
                slope > 0,
                lower < upper,
        ;
    }
}

/// A purchase that is not refused raises the current price where the slope
/// is positive, and the quote it returns spans exactly that rise.
pub proof fn lemma_buy_raises_price(
    before: TokenView,
    after: TokenView,
    authorized: bool,
    amount: int,
    max_payment: int,
    quote: Quote,
)
    requires
        before.inv(),
        before.buy_refusal(authorized, amount, max_payment) is None,
        before.quote(amount, true) == Ok::<Quote, TokenError>(quote),
        after.config == before.config,
        after.total_supply == before.total_supply + amount,
    ensures
        quote.price_before == before.price(),
        quote.price_after == after.price(),
        before.price() <= after.price(),
        before.config->0.slope > 0 ==> before.price() < after.price(),
{
    let c = before.config->0;
    lemma_price_monotonic(
        c.base_price as int,
        c.slope as int,
        before.total_supply,
        after.total_supply,
    );
}

/// Selling back what was just bought is priced over the interval that the
/// purchase swept, so it returns exactly what the purchase cost: the seller
/// never gets more than the buyer paid.
pub proof fn lemma_round_trip(base: int, slope: int, supply: int, amount: int)
    requires
        0 <= supply,
        amount > 0,
    ensures
        quote_of(base, slope, supply + amount, amount, false) == quote_of(
            base,
            slope,
            supply,
            amount,
            true,
        ),
        quote_of(base, slope, supply, amount, true) is Ok ==> quote_of(
            base,
            slope,
            supply + amount,
            amount,
            false,
        )->Ok_0.cost <= quote_of(base, slope, supply, amount, true)->Ok_0.cost,
{
}

/// The same on the engine: after a purchase of `amount` units, the quote for
/// selling `amount` units is the quote that the purchase was made at.
pub proof fn lemma_round_trip_on_state(before: TokenView, after: TokenView, amount: int)
    requires
        before.inv(),
        amount > 0,
        after.config == before.config,
        after.total_supply == before.total_supply + amount,
    ensures
        after.quote(amount, false) == before.quote(amount, true),
{
    if before.config is Some {
        let c = before.config->0;
        lemma_round_trip(c.base_price as int, c.slope as int, before.total_supply, amount);
    }
}

/// While trading is off, a purchase or a sale of a positive amount by a
/// party that proved its identity is refused for that reason, whatever the
/// balances, the limits and the pool.
pub proof fn lemma_trading_gate(
    state: TokenView,
    seller: Address,
    amount: int,
    max_payment: int,
    min_payment: int,
)
    requires
        state.config is Some,
        !state.config->0.trading,
        amount > 0,
    ensures
        state.buy_refusal(true, amount, max_payment) == Some(TokenError::TradingDisabled),
        state.sell_refusal(seller, true, amount, min_payment) == Some(
            TokenError::TradingDisabled,
        ),
{
}

/// The cap is exact: with trading on, a purchase of a positive amount by a
/// party that proved its identity is refused for exceeding the cap exactly
/// when the supply after it would lie above the cap.
pub proof fn lemma_cap_enforced(state: TokenView, amount: int, max_payment: int)
    requires
        state.config is Some,
        state.config->0.trading,
        amount > 0,
    ensures
        state.buy_refusal(true, amount, max_payment) == Some(TokenError::ExceedsMaxSupply)
            <==> state.total_supply + amount > state.config->0.max_supply,
{
}

/// The buyer's ceiling is exact: a purchase that gets as far as pricing is
/// refused for its ceiling exactly when the ceiling is below the cost. At a
/// ceiling equal to the cost it goes through, if the pool has room.
pub proof fn lemma_buy_ceiling(state: TokenView, amount: int, max_payment: int, quote: Quote)
    requires
        state.config is Some,
        state.config->0.trading,
        amount > 0,
        state.total_supply + amount <= state.config->0.max_supply,
        state.quote(amount, true) == Ok::<Quote, TokenError>(quote),
    ensures
        state.buy_refusal(true, amount, max_payment) == Some(TokenError::InsufficientPayment)
            <==> max_payment < quote.cost,
        max_payment >= quote.cost && state.liquidity + quote.cost <= i128::MAX
            ==> state.buy_refusal(true, amount, max_payment) is None,
{
}

/// The seller's floor is exact: a sale that gets as far as pricing is
/// refused for its floor exactly when the proceeds are below the floor. At a
/// floor equal to the proceeds it goes through, if the pool can pay.
pub proof fn lemma_sell_floor(
    state: TokenView,
    seller: Address,
    amount: int,
    min_payment: int,
    quote: Quote,
)
    requires
        state.config is Some,
        state.config->0.trading,
        amount > 0,
        state.balance(seller) >= amount,
        state.quote(amount, false) == Ok::<Quote, TokenError>(quote),
    ensures
        state.sell_refusal(seller, true, amount, min_payment) == Some(TokenError::Slippage)
            <==> quote.cost < min_payment,
        quote.cost >= min_payment && state.liquidity >= quote.cost ==> state.sell_refusal(
            seller,
            true,
            amount,
            min_payment,
        ) is None,
{
}

/// In a state the engine can be in, a holder that owns the amount can always
/// have it priced for sale: the supply covers every balance.
pub proof fn lemma_sale_within_supply(state: TokenView, seller: Address, amount: int)
    requires
        state.inv(),
        state.config is Some,
        0 < amount <= state.balance(seller),
    ensures
        state.quote(amount, false) != Err::<Quote, TokenError>(TokenError::InsufficientSupply),
{
    lemma_conservation(state, seller);
}

} // verus!
