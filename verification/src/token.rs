//! The token engine: configuration, supply, liquidity and balances, and the
//! transitions between their states.

use vstd::prelude::*;
use crate::address::Address;
use crate::balances::{balance_in, table_ok, total_of, Balances, Holding};
use crate::curve::{price_at, quote_of, Quote};
use crate::error::TokenError;

verus! {

/// The configuration record. It is written once, by `init`; afterwards only
/// `trading` changes.
#[derive(Debug)]
pub struct Config {
    pub name: String,
    pub symbol: String,
    pub owner: Address,
    pub max_supply: i128,
    pub base_price: i128,
    pub slope: i128,
    pub payment_token: Option<Address>,
    pub trading: bool,
}

impl Config {
    /// The cap and the base price are positive and the slope is not negative.
    pub open spec fn valid(&self) -> bool {
        &&& self.max_supply > 0
        &&& self.base_price > 0
        &&& self.slope >= 0
    }
}

impl Clone for Config {
    fn clone(&self) -> (c: Self)
        ensures
            c == *self,
    {
        Config {
            name: self.name.clone(),
            symbol: self.symbol.clone(),
            owner: self.owner,
            max_supply: self.max_supply,
            base_price: self.base_price,
            slope: self.slope,
            payment_token: self.payment_token,
            trading: self.trading,
        }
    }
}

/// A read-only aggregate of the configuration and the two counters.
#[derive(Debug)]
pub struct TokenSummary {
    pub name: String,
    pub symbol: String,
    pub owner: Address,
    pub max_supply: i128,
    pub total_supply: i128,
    pub base_price: i128,
    pub slope: i128,
    pub liquidity: i128,
    pub trading: bool,
    pub payment_token: Option<Address>,
}

/// A movement of the payment asset that has to accompany a transition.
/// The engine only accounts for it; whoever drives the engine carries it out,
/// and discards the transition if the movement fails.
#[derive(Clone, Copy, Debug, PartialEq, Eq, Structural)]
pub enum Payment {
    /// `amount` units of `asset` move from `from` into the engine's custody.
    Pull { asset: Address, from: Address, amount: i128 },
    /// `amount` units of `asset` move out of the engine's custody to `to`.
    Push { asset: Address, to: Address, amount: i128 },
}

/// The record that a committed transition leaves for outside observers.
#[derive(Debug)]
pub enum TokenEvent {
    Init {
        owner: Address,
        name: String,
        symbol: String,
        max_supply: i128,
        initial_liquidity: i128,
    },
    Trading { is_on: bool },
    Transfer { from: Address, to: Address, amount: i128 },
    LiquidityIn { caller: Address, amount: i128, liquidity: i128 },
    LiquidityOut { caller: Address, to: Address, amount: i128, liquidity: i128 },
    Buy { buyer: Address, amount: i128, cost: i128, liquidity: i128 },
    Sell { seller: Address, amount: i128, cost: i128, liquidity: i128 },
}

/// What a committed transition asks of the outside: a payment, where a
/// payment asset is configured, and an event to publish.
#[derive(Debug)]
pub struct Effects {
    pub payment: Option<Payment>,
    pub event: TokenEvent,
}

/// The pull that funds a transition, where a payment asset is configured.
pub open spec fn pull_of(asset: Option<Address>, from: Address, amount: i128) -> Option<Payment> {
    match asset {
        Some(a) => Some(Payment::Pull { asset: a, from, amount }),
        None => None,
    }
}

/// The push that pays a transition out, where a payment asset is configured.
pub open spec fn push_of(asset: Option<Address>, to: Address, amount: i128) -> Option<Payment> {
    match asset {
        Some(a) => Some(Payment::Push { asset: a, to, amount }),
        None => None,
    }
}

/// The state of a token as contracts see it: the four persisted records.
pub struct TokenView {
    pub config: Option<Config>,
    pub holdings: Seq<Holding>,
    pub total_supply: int,
    pub liquidity: int,
}

impl TokenView {
    /// The state before `init`: no configuration, nothing issued, nothing pooled.
    pub open spec fn blank() -> TokenView {
        TokenView { config: None, holdings: Seq::empty(), total_supply: 0, liquidity: 0 }
    }

    /// What holds of every state that the engine can reach: the balances add
    /// up to the supply, the supply lies between zero and the cap, the
    /// liquidity is not negative and fits its counter, and a token without
    /// configuration is blank.
    pub open spec fn inv(self) -> bool {
        &&& table_ok(self.holdings)
        &&& total_of(self.holdings) == self.total_supply
        &&& 0 <= self.total_supply
        &&& 0 <= self.liquidity <= i128::MAX
        &&& match self.config {
            Some(c) => c.valid() && self.total_supply <= c.max_supply,
            None => self == TokenView::blank(),
        }
    }

    /// The balance of `who`.
    pub open spec fn balance(self, who: Address) -> int {
        balance_in(self.holdings, who)
    }

    /// The unit price at the current supply, on a configured token.
    pub open spec fn price(self) -> int
        recommends
            self.config is Some,
    {
        price_at(
            self.config->0.base_price as int,
            self.config->0.slope as int,
            self.total_supply,
        )
    }

    /// What `current_price` returns.
    pub open spec fn current_price(self) -> Result<i128, TokenError> {
        match self.config {
            None => Err(TokenError::NotInitialized),
            Some(c) => if crate::curve::fits(c.slope * self.total_supply) && crate::curve::fits(
                self.price(),
            ) {
                Ok(self.price() as i128)
            } else {
                Err(TokenError::ArithmeticOverflow)
            },
        }
    }

    /// What `quote_buy` (`is_buy`) and `quote_sell` (`!is_buy`) return.
    pub open spec fn quote(self, amount: int, is_buy: bool) -> Result<Quote, TokenError> {
        if amount <= 0 {
            Err(TokenError::InvalidAmount)
        } else {
            match self.config {
                None => Err(TokenError::NotInitialized),
                Some(c) => quote_of(
                    c.base_price as int,
                    c.slope as int,
                    self.total_supply,
                    amount,
                    is_buy,
                ),
            }
        }
    }

    /// What `summary` returns.
    pub open spec fn summary(self) -> Result<TokenSummary, TokenError> {
        match self.config {
            None => Err(TokenError::NotInitialized),
            Some(c) => Ok(
                TokenSummary {
                    name: c.name,
                    symbol: c.symbol,
                    owner: c.owner,
                    max_supply: c.max_supply,
                    total_supply: self.total_supply as i128,
                    base_price: c.base_price,
                    slope: c.slope,
                    liquidity: self.liquidity as i128,
                    trading: c.trading,
                    payment_token: c.payment_token,
                },
            ),
        }
    }
}

impl TokenView {
    /// Why `init` is refused, if it is; the first failing check decides.
    pub open spec fn init_refusal(
        self,
        authorized: bool,
        max_supply: int,
        base_price: int,
        slope: int,
        initial_supply: int,
        initial_liquidity: int,
    ) -> Option<TokenError> {
        if self.config is Some {
            Some(TokenError::AlreadyInitialized)
        } else if !authorized {
            Some(TokenError::Unauthorized)
        } else if max_supply <= 0 || base_price <= 0 || slope < 0 {
            Some(TokenError::InvalidConfig)
        } else if initial_supply < 0 || initial_liquidity < 0 || initial_supply > max_supply {
            Some(TokenError::InvalidInit)
        } else {
            None
        }
    }

    /// Why `set_trading` is refused, if it is.
    pub open spec fn set_trading_refusal(self, caller: Address) -> Option<TokenError> {
        match self.config {
            None => Some(TokenError::NotInitialized),
            Some(c) => if caller != c.owner {
                Some(TokenError::Unauthorized)
            } else {
                None
            },
        }
    }

    /// Why `transfer` is refused, if it is; the first failing check decides.
    pub open spec fn transfer_refusal(
        self,
        from: Address,
        authorized: bool,
        amount: int,
    ) -> Option<TokenError> {
        if amount <= 0 {
            Some(TokenError::InvalidAmount)
        } else if !authorized {
            Some(TokenError::Unauthorized)
        } else if self.balance(from) < amount {
            Some(TokenError::InsufficientBalance)
        } else {
            None
        }
    }

    /// The balance of `who` after `amount` units went from `from` to `to`.
    pub open spec fn balance_after_transfer(
        self,
        from: Address,
        to: Address,
        amount: int,
        who: Address,
    ) -> int {
        if from == to {
            self.balance(who)
        } else if who == from {
            self.balance(who) - amount
        } else if who == to {
            self.balance(who) + amount
        } else {
            self.balance(who)
        }
    }

    /// Why `deposit_liquidity` is refused, if it is; the first failing check
    /// decides.
    pub open spec fn deposit_refusal(self, authorized: bool, amount: int) -> Option<TokenError> {
        if amount <= 0 {
            Some(TokenError::InvalidAmount)
        } else if self.config is None {
            Some(TokenError::NotInitialized)
        } else if !authorized {
            Some(TokenError::Unauthorized)
        } else if self.liquidity + amount > i128::MAX {
            Some(TokenError::ArithmeticOverflow)
        } else {
            None
        }
    }

    /// Why `withdraw_liquidity` is refused, if it is; the first failing check
    /// decides.
    pub open spec fn withdraw_refusal(
        self,
        caller: Address,
        authorized: bool,
        amount: int,
    ) -> Option<TokenError> {
        if amount <= 0 {
            Some(TokenError::InvalidAmount)
        } else {
            match self.config {
                None => Some(TokenError::NotInitialized),
                Some(c) => if !authorized || caller != c.owner {
                    Some(TokenError::Unauthorized)
                } else if self.liquidity < amount {
                    Some(TokenError::InsufficientLiquidity)
                } else {
                    None
                },
            }
        }
    }

    /// Why `buy` is refused, if it is; the first failing check decides:
    /// amount, authorisation, configuration, trading gate, cap, pricing,
    /// payment ceiling, room in the pool.
    pub open spec fn buy_refusal(
        self,
        authorized: bool,
        amount: int,
        max_payment: int,
    ) -> Option<TokenError> {
        if amount <= 0 {
            Some(TokenError::InvalidAmount)
        } else if !authorized {
            Some(TokenError::Unauthorized)
        } else {
            match self.config {
                None => Some(TokenError::NotInitialized),
                Some(c) => if !c.trading {
                    Some(TokenError::TradingDisabled)
                } else if self.total_supply + amount > c.max_supply {
                    Some(TokenError::ExceedsMaxSupply)
                } else {
                    match self.quote(amount, true) {
                        Err(e) => Some(e),
                        Ok(q) => if max_payment < q.cost {
                            Some(TokenError::InsufficientPayment)
                        } else if self.liquidity + q.cost > i128::MAX {
                            Some(TokenError::ArithmeticOverflow)
                        } else {
                            None
                        },
                    }
                },
            }
        }
    }

    /// Why `sell` is refused, if it is; the first failing check decides:
    /// amount, authorisation, configuration, trading gate, balance, pricing,
    /// proceeds floor, pool.
    pub open spec fn sell_refusal(
        self,
        seller: Address,
        authorized: bool,
        amount: int,
        min_payment: int,
    ) -> Option<TokenError> {
        if amount <= 0 {
            Some(TokenError::InvalidAmount)
        } else if !authorized {
            Some(TokenError::Unauthorized)
        } else {
            match self.config {
                None => Some(TokenError::NotInitialized),
                Some(c) => if !c.trading {
                    Some(TokenError::TradingDisabled)
                } else if self.balance(seller) < amount {
                    Some(TokenError::InsufficientBalance)
                } else {
                    match self.quote(amount, false) {
                        Err(e) => Some(e),
                        Ok(q) => if q.cost < min_payment {
                            Some(TokenError::Slippage)
                        } else if self.liquidity < q.cost {
                            Some(TokenError::InsufficientLiquidity)
                        } else {
                            None
                        },
                    }
                },
            }
        }
    }
}

/// The token engine: the configuration, the balance table, the supply
/// counter and the liquidity counter, with the transitions between states.
#[derive(Debug)]
pub struct PapexToken {
    cfg: Option<Config>,
    balances: Balances,
    supply: i128,
    pool: i128,
}

impl View for PapexToken {
    type V = TokenView;

    closed spec fn view(&self) -> TokenView {
        TokenView {
            config: self.cfg,
            holdings: self.balances@,
            total_supply: self.supply as int,
            liquidity: self.pool as int,
        }
    }
}

impl Clone for PapexToken {
    fn clone(&self) -> (t: Self)
        ensures
            t@ == self@,
    {
        PapexToken {
            cfg: match &self.cfg {
                Some(c) => Some(c.clone()),
                None => None,
            },
            balances: self.balances.clone(),
            supply: self.supply,
            pool: self.pool,
        }
    }
}

impl PapexToken {
    /// A token that has not been initialised.
    pub fn new() -> (t: PapexToken)
        ensures
            t@ == TokenView::blank(),
            t@.inv(),
    {
        PapexToken { cfg: None, balances: Balances::new(), supply: 0, pool: 0 }
    }

    /// The token whose four persisted records are the arguments, if they
    /// form a state that the engine can be in.
    pub fn restore(
        cfg: Option<Config>,
        rows: Vec<Holding>,
        total_supply: i128,
        liquidity: i128,
    ) -> (r: Option<PapexToken>)
        ensures
            match r {
                Some(t) => {
                    &&& t@ == (TokenView {
                        config: cfg,
                        holdings: rows@,
                        total_supply: total_supply as int,
                        liquidity: liquidity as int,
                    })
                    &&& t@.inv()
                },
                None => !(TokenView {
                    config: cfg,
                    holdings: rows@,
                    total_supply: total_supply as int,
                    liquidity: liquidity as int,
                }).inv(),
            },
    {
        if total_supply < 0 || liquidity < 0 {
            return None;
        }
        match &cfg {
            Some(c) => {
                if c.max_supply <= 0 || c.base_price <= 0 || c.slope < 0 || total_supply
                    > c.max_supply {
                    return None;
                }
            },
            None => {
                if rows.len() != 0 || total_supply != 0 || liquidity != 0 {
                    return None;
                }
            },
        }
        let balances: Balances = match Balances::from_rows(rows) {
            Some(b) => b,
            None => {
                return None;
            },
        };
        match balances.sum() {
            Some(total) => {
                if total != total_supply {
                    return None;
                }
            },
            None => {
                return None;
            },
        }
        proof {
            if cfg is None {
                assert(rows@ =~= Seq::<Holding>::empty());
            }
        }
        Some(PapexToken { cfg, balances, supply: total_supply, pool: liquidity })
    }

    /// The balance table.
    pub fn balances(&self) -> (table: &Balances)
        ensures
            table@ == self@.holdings,
    {
        &self.balances
    }

    /// Accepts `amount` if it is positive.
    pub fn ensure_amount(amount: i128) -> (r: Result<(), TokenError>)
        ensures
            r == if amount <= 0 {
                Err::<(), TokenError>(TokenError::InvalidAmount)
            } else {
                Ok(())
            },
    {
        if amount <= 0 {
            Err(TokenError::InvalidAmount)
        } else {
            Ok(())
        }
    }

    /// Prices a trade of `amount` units at supply `supply` on the curve
    /// `base + slope * s`: a purchase sweeps upwards from `supply`, a sale
    /// downwards to `supply - amount`.
    pub fn bonding_quote(
        base: i128,
        slope: i128,
        supply: i128,
        amount: i128,
        is_buy: bool,
    ) -> (r: Result<Quote, TokenError>)
        ensures
            r == quote_of(base as int, slope as int, supply as int, amount as int, is_buy),
    {
        let start: i128 = if is_buy {
            supply
        } else {
            match supply.checked_sub(amount) {
                Some(s) => s,
                None => {
                    if amount > 0 {
                        return Err(TokenError::InsufficientSupply);
                    } else {
                        return Err(TokenError::ArithmeticOverflow);
                    }
                },
            }
        };
        if start < 0 {
            return Err(TokenError::InsufficientSupply);
        }
        let end: i128 = if is_buy {
            match supply.checked_add(amount) {
                Some(e) => e,
                None => {
                    return Err(TokenError::ArithmeticOverflow);
                },
            }
        } else {
            supply
        };
        let rise_before: i128 = match slope.checked_mul(start) {
            Some(v) => v,
            None => {
                return Err(TokenError::ArithmeticOverflow);
            },
        };
        let price_before: i128 = match base.checked_add(rise_before) {
            Some(v) => v,
            None => {
                return Err(TokenError::ArithmeticOverflow);
            },
        };
        let rise_after: i128 = match slope.checked_mul(end) {
            Some(v) => v,
            None => {
                return Err(TokenError::ArithmeticOverflow);
            },
        };
        let price_after: i128 = match base.checked_add(rise_after) {
            Some(v) => v,
            None => {
                return Err(TokenError::ArithmeticOverflow);
            },
        };
        let both: i128 = match price_before.checked_add(price_after) {
            Some(v) => v,
            None => {
                return Err(TokenError::ArithmeticOverflow);
            },
        };
        let average: i128 = match both.checked_div_euclid(2) {
            Some(v) => v,
            None => {
                return Err(TokenError::ArithmeticOverflow);
            },
        };
        let cost: i128 = match average.checked_mul(amount) {
            Some(v) => v,
            None => {
                return Err(TokenError::ArithmeticOverflow);
            },
        };
        Ok(Quote { cost, price_before, price_after })
    }

    /// The configuration record.
    pub fn config(&self) -> (r: Result<Config, TokenError>)
        ensures
            r == match self@.config {
                Some(c) => Ok::<Config, TokenError>(c),
                None => Err(TokenError::NotInitialized),
            },
    {
        match &self.cfg {
            Some(c) => Ok(c.clone()),
            None => Err(TokenError::NotInitialized),
        }
    }

    /// The configuration and the two counters in one record.
    pub fn summary(&self) -> (r: Result<TokenSummary, TokenError>)
        ensures
            r == self@.summary(),
    {
        match &self.cfg {
            Some(c) => Ok(
                TokenSummary {
                    name: c.name.clone(),
                    symbol: c.symbol.clone(),
                    owner: c.owner,
                    max_supply: c.max_supply,
                    total_supply: self.supply,
                    base_price: c.base_price,
                    slope: c.slope,
                    liquidity: self.pool,
                    trading: c.trading,
                    payment_token: c.payment_token,
                },
            ),
            None => Err(TokenError::NotInitialized),
        }
    }

    /// The number of units in circulation; zero before `init`.
    pub fn total_supply(&self) -> (supply: i128)
        ensures
            supply == self@.total_supply,
    {
        self.supply
    }

    /// The reserve accounted to the pool; zero before `init`.
    pub fn liquidity(&self) -> (pool: i128)
        ensures
            pool == self@.liquidity,
    {
        self.pool
    }

    /// The balance of `who`; zero for a holder without a row.
    pub fn balance_of(&self, who: Address) -> (amount: i128)
        requires
            self@.inv(),
        ensures
            amount == self@.balance(who),
    {
        self.balances.get(who)
    }

    /// The unit price at the current supply.
    pub fn current_price(&self) -> (r: Result<i128, TokenError>)
        ensures
            r == self@.current_price(),
    {
        match &self.cfg {
            None => Err(TokenError::NotInitialized),
            Some(c) => {
                let rise: i128 = match c.slope.checked_mul(self.supply) {
                    Some(v) => v,
                    None => {
                        return Err(TokenError::ArithmeticOverflow);
                    },
                };
                match c.base_price.checked_add(rise) {
                    Some(p) => Ok(p),
                    None => Err(TokenError::ArithmeticOverflow),
                }
            },
        }
    }

    /// Prices a purchase of `amount` units at the current supply.
    pub fn quote_buy(&self, amount: i128) -> (r: Result<Quote, TokenError>)
        ensures
            r == self@.quote(amount as int, true),
    {
        if amount <= 0 {
            return Err(TokenError::InvalidAmount);
        }
        match &self.cfg {
            None => Err(TokenError::NotInitialized),
            Some(c) => Self::bonding_quote(c.base_price, c.slope, self.supply, amount, true),
        }
    }

    /// Prices a sale of `amount` units at the current supply.
    pub fn quote_sell(&self, amount: i128) -> (r: Result<Quote, TokenError>)
        ensures
            r == self@.quote(amount as int, false),
    {
        if amount <= 0 {
            return Err(TokenError::InvalidAmount);
        }
        match &self.cfg {
            None => Err(TokenError::NotInitialized),
            Some(c) => Self::bonding_quote(c.base_price, c.slope, self.supply, amount, false),
        }
    }
}

impl PapexToken {
    /// Writes the configuration, issues the initial supply to the owner and
    /// books the initial liquidity. The market starts closed.
    ///
    /// `authorized` says whether `owner` has proved its identity for this call.
    pub fn init(
        &mut self,
        owner: Address,
        authorized: bool,
        name: String,
        symbol: String,
        max_supply: i128,
        base_price: i128,
        slope: i128,
        payment_token: Option<Address>,
        initial_supply_to_owner: i128,
        initial_liquidity: i128,
    ) -> (r: Result<Effects, TokenError>)
        requires
            old(self)@.inv(),
        ensures
            final(self)@.inv(),
            match r {
                Err(e) => {
                    &&& old(self)@.init_refusal(
                        authorized,
                        max_supply as int,
                        base_price as int,
                        slope as int,
                        initial_supply_to_owner as int,
                        initial_liquidity as int,
                    ) == Some(e)
                    &&& final(self)@ == old(self)@
                },
                Ok(effects) => {
                    &&& old(self)@.init_refusal(
                        authorized,
                        max_supply as int,
                        base_price as int,
                        slope as int,
                        initial_supply_to_owner as int,
                        initial_liquidity as int,
                    ) is None
                    &&& final(self)@.config == Some(
                        Config {
                            name,
                            symbol,
                            owner,
                            max_supply,
                            base_price,
                            slope,
                            payment_token,
                            trading: false,
                        },
                    )
                    &&& final(self)@.total_supply == initial_supply_to_owner
                    &&& final(self)@.liquidity == initial_liquidity
                    &&& forall|who: Address| #[trigger]
                        balance_in(final(self)@.holdings, who) == if who == owner {
                            initial_supply_to_owner as int
                        } else {
                            0
                        }
                    &&& effects.payment == if initial_liquidity > 0 {
                        pull_of(payment_token, owner, initial_liquidity)
                    } else {
                        None
                    }
                    &&& effects.event == (TokenEvent::Init {
                        owner,
                        name,
                        symbol,
                        max_supply,
                        initial_liquidity,
                    })
                },
            },
    {
        if self.cfg.is_some() {
            return Err(TokenError::AlreadyInitialized);
        }
        if !authorized {
            return Err(TokenError::Unauthorized);
        }
        if max_supply <= 0 || base_price <= 0 || slope < 0 {
            return Err(TokenError::InvalidConfig);
        }
        if initial_supply_to_owner < 0 || initial_liquidity < 0 || initial_supply_to_owner
            > max_supply {
            return Err(TokenError::InvalidInit);
        }
        let event = TokenEvent::Init {
            owner,
            name: name.clone(),
            symbol: symbol.clone(),
            max_supply,
            initial_liquidity,
        };
        let payment: Option<Payment> = if initial_liquidity > 0 {
            match payment_token {
                Some(asset) => Some(
                    Payment::Pull { asset, from: owner, amount: initial_liquidity },
                ),
                None => None,
            }
        } else {
            None
        };
        self.cfg = Some(
            Config {
                name,
                symbol,
                owner,
                max_supply,
                base_price,
                slope,
                payment_token,
                trading: false,
            },
        );
        self.supply = initial_supply_to_owner;
        if initial_supply_to_owner > 0 {
            self.balances.set(owner, initial_supply_to_owner);
        }
        self.pool = initial_liquidity;
        Ok(Effects { payment, event })
    }

    /// Opens or closes the market. Only the owner may.
    pub fn set_trading(&mut self, caller: Address, is_on: bool) -> (r: Result<TokenEvent, TokenError>)
        requires
            old(self)@.inv(),
        ensures
            final(self)@.inv(),
            match r {
                Err(e) => {
                    &&& old(self)@.set_trading_refusal(caller) == Some(e)
                    &&& final(self)@ == old(self)@
                },
                Ok(event) => {
                    &&& old(self)@.set_trading_refusal(caller) is None
                    &&& final(self)@ == (TokenView {
                        config: Some(Config { trading: is_on, ..old(self)@.config->0 }),
                        ..old(self)@
                    })
                    &&& event == (TokenEvent::Trading { is_on })
                },
            },
    {
        match &mut self.cfg {
            None => Err(TokenError::NotInitialized),
            Some(c) => {
                if caller != c.owner {
                    return Err(TokenError::Unauthorized);
                }
                c.trading = is_on;
                Ok(TokenEvent::Trading { is_on })
            },
        }
    }

    /// Moves `amount` units from `from` to `to`. The supply does not change.
    ///
    /// `authorized` says whether `from` has proved its identity for this call.
    pub fn transfer(
        &mut self,
        from: Address,
        authorized: bool,
        to: Address,
        amount: i128,
    ) -> (r: Result<TokenEvent, TokenError>)
        requires
            old(self)@.inv(),
        ensures
            final(self)@.inv(),
            match r {
                Err(e) => {
                    &&& old(self)@.transfer_refusal(from, authorized, amount as int) == Some(e)
                    &&& final(self)@ == old(self)@
                },
                Ok(event) => {
                    &&& old(self)@.transfer_refusal(from, authorized, amount as int) is None
                    &&& final(self)@.config == old(self)@.config
                    &&& final(self)@.total_supply == old(self)@.total_supply
                    &&& final(self)@.liquidity == old(self)@.liquidity
                    &&& forall|who: Address| #[trigger]
                        balance_in(final(self)@.holdings, who) == old(self)@.balance_after_transfer(
                            from,
                            to,
                            amount as int,
                            who,
                        )
                    &&& event == (TokenEvent::Transfer { from, to, amount })
                },
            },
    {
        if amount <= 0 {
            return Err(TokenError::InvalidAmount);
        }
        if !authorized {
            return Err(TokenError::Unauthorized);
        }
        let from_balance: i128 = self.balances.get(from);
        if from_balance < amount {
            return Err(TokenError::InsufficientBalance);
        }
        self.balances.set(from, from_balance - amount);
        let to_balance: i128 = self.balances.get(to);
        self.balances.set(to, to_balance + amount);
        Ok(TokenEvent::Transfer { from, to, amount })
    }
}

impl PapexToken {
    /// Adds `amount` to the pool. Anyone who proves its identity may.
    ///
    /// `authorized` says whether `caller` has proved its identity for this call.
    pub fn deposit_liquidity(
        &mut self,
        caller: Address,
        authorized: bool,
        amount: i128,
    ) -> (r: Result<Effects, TokenError>)
        requires
            old(self)@.inv(),
        ensures
            final(self)@.inv(),
            match r {
                Err(e) => {
                    &&& old(self)@.deposit_refusal(authorized, amount as int) == Some(e)
                    &&& final(self)@ == old(self)@
                },
                Ok(effects) => {
                    &&& old(self)@.deposit_refusal(authorized, amount as int) is None
                    &&& final(self)@ == (TokenView {
                        liquidity: old(self)@.liquidity + amount,
                        ..old(self)@
                    })
                    &&& effects.payment == pull_of(
                        old(self)@.config->0.payment_token,
                        caller,
                        amount,
                    )
                    &&& effects.event == (TokenEvent::LiquidityIn {
                        caller,
                        amount,
                        liquidity: final(self)@.liquidity as i128,
                    })
                },
            },
    {
        if amount <= 0 {
            return Err(TokenError::InvalidAmount);
        }
        let asset: Option<Address> = match &self.cfg {
            None => {
                return Err(TokenError::NotInitialized);
            },
            Some(c) => c.payment_token,
        };
        if !authorized {
            return Err(TokenError::Unauthorized);
        }
        let liquidity: i128 = match self.pool.checked_add(amount) {
            Some(v) => v,
            None => {
                return Err(TokenError::ArithmeticOverflow);
            },
        };
        let payment: Option<Payment> = match asset {
            Some(a) => Some(Payment::Pull { asset: a, from: caller, amount }),
            None => None,
        };
        self.pool = liquidity;
        Ok(Effects { payment, event: TokenEvent::LiquidityIn { caller, amount, liquidity } })
    }

    /// Takes `amount` out of the pool and sends it to `to`. Only the owner
    /// may, and never more than the pool holds.
    ///
    /// `authorized` says whether `caller` has proved its identity for this call.
    pub fn withdraw_liquidity(
        &mut self,
        caller: Address,
        authorized: bool,
        amount: i128,
        to: Address,
    ) -> (r: Result<Effects, TokenError>)
        requires
            old(self)@.inv(),
        ensures
            final(self)@.inv(),
            match r {
                Err(e) => {
                    &&& old(self)@.withdraw_refusal(caller, authorized, amount as int) == Some(e)
                    &&& final(self)@ == old(self)@
                },
                Ok(effects) => {
                    &&& old(self)@.withdraw_refusal(caller, authorized, amount as int) is None
                    &&& final(self)@ == (TokenView {
                        liquidity: old(self)@.liquidity - amount,
                        ..old(self)@
                    })
                    &&& effects.payment == push_of(old(self)@.config->0.payment_token, to, amount)
                    &&& effects.event == (TokenEvent::LiquidityOut {
                        caller,
                        to,
                        amount,
                        liquidity: final(self)@.liquidity as i128,
                    })
                },
            },
    {
        if amount <= 0 {
            return Err(TokenError::InvalidAmount);
        }
        let (owner, asset): (Address, Option<Address>) = match &self.cfg {
            None => {
                return Err(TokenError::NotInitialized);
            },
            Some(c) => (c.owner, c.payment_token),
        };
        if !authorized || caller != owner {
            return Err(TokenError::Unauthorized);
        }
        if self.pool < amount {
            return Err(TokenError::InsufficientLiquidity);
        }
        let liquidity: i128 = self.pool - amount;
        let payment: Option<Payment> = match asset {
            Some(a) => Some(Payment::Push { asset: a, to, amount }),
            None => None,
        };
        self.pool = liquidity;
        Ok(Effects { payment, event: TokenEvent::LiquidityOut { caller, to, amount, liquidity } })
    }

    /// Issues `amount` new units to `buyer` at the curve's price, provided the
    /// cost does not exceed `max_payment`. The cost goes to the pool.
    ///
    /// `authorized` says whether `buyer` has proved its identity for this call.
    pub fn buy(
        &mut self,
        buyer: Address,
        authorized: bool,
        amount: i128,
        max_payment: i128,
    ) -> (r: Result<(Quote, Effects), TokenError>)
        requires
            old(self)@.inv(),
        ensures
            final(self)@.inv(),
            match r {
                Err(e) => {
                    &&& old(self)@.buy_refusal(authorized, amount as int, max_payment as int)
                        == Some(e)
                    &&& final(self)@ == old(self)@
                },
                Ok((quote, effects)) => {
                    &&& old(self)@.buy_refusal(authorized, amount as int, max_payment as int)
                        is None
                    &&& old(self)@.quote(amount as int, true) == Ok::<Quote, TokenError>(quote)
                    &&& final(self)@.config == old(self)@.config
                    &&& final(self)@.total_supply == old(self)@.total_supply + amount
                    &&& final(self)@.liquidity == old(self)@.liquidity + quote.cost
                    &&& forall|who: Address| #[trigger]
                        balance_in(final(self)@.holdings, who) == old(self)@.balance(who)
                            + if who == buyer {
                            amount as int
                        } else {
                            0
                        }
                    &&& effects.payment == pull_of(
                        old(self)@.config->0.payment_token,
                        buyer,
                        quote.cost,
                    )
                    &&& effects.event == (TokenEvent::Buy {
                        buyer,
                        amount,
                        cost: quote.cost,
                        liquidity: final(self)@.liquidity as i128,
                    })
                },
            },
    {
        if amount <= 0 {
            return Err(TokenError::InvalidAmount);
        }
        if !authorized {
            return Err(TokenError::Unauthorized);
        }
        let (base, slope, cap, trading, asset): (i128, i128, i128, bool, Option<Address>) =
            match &self.cfg {
            None => {
                return Err(TokenError::NotInitialized);
            },
            Some(c) => (c.base_price, c.slope, c.max_supply, c.trading, c.payment_token),
        };
        if !trading {
            return Err(TokenError::TradingDisabled);
        }
        if amount > cap - self.supply {
            return Err(TokenError::ExceedsMaxSupply);
        }
        let quote: Quote = match Self::bonding_quote(base, slope, self.supply, amount, true) {
            Ok(q) => q,
            Err(e) => {
                return Err(e);
            },
        };
        if max_payment < quote.cost {
            return Err(TokenError::InsufficientPayment);
        }
        let liquidity: i128 = match self.pool.checked_add(quote.cost) {
            Some(v) => v,
            None => {
                return Err(TokenError::ArithmeticOverflow);
            },
        };
        proof {
            crate::curve::lemma_cost_positive(
                base as int,
                slope as int,
                self.supply as int,
                self.supply + amount,
                amount as int,
            );
        }
        let payment: Option<Payment> = match asset {
            Some(a) => Some(Payment::Pull { asset: a, from: buyer, amount: quote.cost }),
            None => None,
        };
        let current: i128 = self.balances.get(buyer);
        self.supply = self.supply + amount;
        self.balances.set(buyer, current + amount);
        self.pool = liquidity;
        let event = TokenEvent::Buy { buyer, amount, cost: quote.cost, liquidity };
        Ok((quote, Effects { payment, event }))
    }

    /// Redeems `amount` units of `seller` at the curve's price, provided the
    /// proceeds are at least `min_payment` and the pool can pay them.
    ///
    /// `authorized` says whether `seller` has proved its identity for this call.
    pub fn sell(
        &mut self,
        seller: Address,
        authorized: bool,
        amount: i128,
        min_payment: i128,
    ) -> (r: Result<(Quote, Effects), TokenError>)
        requires
            old(self)@.inv(),
        ensures
            final(self)@.inv(),
            match r {
                Err(e) => {
                    &&& old(self)@.sell_refusal(
                        seller,
                        authorized,
                        amount as int,
                        min_payment as int,
                    ) == Some(e)
                    &&& final(self)@ == old(self)@
                },
                Ok((quote, effects)) => {
                    &&& old(self)@.sell_refusal(
                        seller,
                        authorized,
                        amount as int,
                        min_payment as int,
                    ) is None
                    &&& old(self)@.quote(amount as int, false) == Ok::<Quote, TokenError>(quote)
                    &&& final(self)@.config == old(self)@.config
                    &&& final(self)@.total_supply == old(self)@.total_supply - amount
                    &&& final(self)@.liquidity == old(self)@.liquidity - quote.cost
                    &&& forall|who: Address| #[trigger]
                        balance_in(final(self)@.holdings, who) == old(self)@.balance(who)
                            - if who == seller {
                            amount as int
                        } else {
                            0
                        }
                    &&& effects.payment == push_of(
                        old(self)@.config->0.payment_token,
                        seller,
                        quote.cost,
                    )
                    &&& effects.event == (TokenEvent::Sell {
                        seller,
                        amount,
                        cost: quote.cost,
                        liquidity: final(self)@.liquidity as i128,
                    })
                },
            },
    {
        if amount <= 0 {
            return Err(TokenError::InvalidAmount);
        }
        if !authorized {
            return Err(TokenError::Unauthorized);
        }
        let (base, slope, trading, asset): (i128, i128, bool, Option<Address>) = match &self.cfg {
            None => {
                return Err(TokenError::NotInitialized);
            },
            Some(c) => (c.base_price, c.slope, c.trading, c.payment_token),
        };
        if !trading {
            return Err(TokenError::TradingDisabled);
        }
        let current: i128 = self.balances.get(seller);
        if current < amount {
            return Err(TokenError::InsufficientBalance);
        }
        let quote: Quote = match Self::bonding_quote(base, slope, self.supply, amount, false) {
            Ok(q) => q,
            Err(e) => {
                return Err(e);
            },
        };
        if quote.cost < min_payment {
            return Err(TokenError::Slippage);
        }
        if self.pool < quote.cost {
            return Err(TokenError::InsufficientLiquidity);
        }
        let liquidity: i128 = self.pool - quote.cost;
        let payment: Option<Payment> = match asset {
            Some(a) => Some(Payment::Push { asset: a, to: seller, amount: quote.cost }),
            None => None,
        };
        self.pool = liquidity;
        self.balances.set(seller, current - amount);
        self.supply = self.supply - amount;
        let event = TokenEvent::Sell { seller, amount, cost: quote.cost, liquidity };
        Ok((quote, Effects { payment, event }))
    }
}

} // verus!
