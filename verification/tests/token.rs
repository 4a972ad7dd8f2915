use papex::{
    Address, Config, Effects, Holding, PapexToken, Payment, Quote, TokenError, TokenEvent,
};

fn account(n: u128) -> Address {
    Address { contract: false, hi: 0, lo: n }
}

fn contract(n: u128) -> Address {
    Address { contract: true, hi: 0, lo: n }
}

fn fresh(payment_token: Option<Address>) -> (PapexToken, Address) {
    let owner = account(1);
    let mut token = PapexToken::new();
    token
        .init(
            owner,
            true,
            String::from("Paper Token"),
            String::from("PAPER"),
            1_000,
            100,
            2,
            payment_token,
            100,
            10_000,
        )
        .unwrap();
    (token, owner)
}

fn open(payment_token: Option<Address>) -> (PapexToken, Address) {
    let (mut token, owner) = fresh(payment_token);
    token.set_trading(owner, true).unwrap();
    (token, owner)
}

#[test]
fn bonding_curve_flow_without_payment_token() {
    let owner = account(1);
    let buyer = account(2);

    let mut token = PapexToken::new();
    token
        .init(
            owner,
            true,
            String::from("Paper Token"),
            String::from("PAPER"),
            1_000,
            100,
            2,
            None,
            100,
            10_000,
        )
        .unwrap();

    let summary = token.summary().unwrap();
    assert_eq!(summary.total_supply, 100);
    assert_eq!(summary.liquidity, 10_000);
    assert_eq!(summary.trading, false);

    token.set_trading(owner, true).unwrap();

    assert_eq!(token.balance_of(owner), 100);

    let (quote_buy, _) = token.buy(buyer, true, 10, 10_000).unwrap();
    assert_eq!(quote_buy.cost, 3100);
    assert_eq!(token.balance_of(buyer), 10);
    assert_eq!(token.total_supply(), 110);
    assert_eq!(token.summary().unwrap().liquidity, 13_100);

    let (quote_sell, _) = token.sell(buyer, true, 4, 1_200).unwrap();
    assert_eq!(quote_sell.cost, 1_264);
    assert_eq!(token.balance_of(buyer), 6);
    assert_eq!(token.total_supply(), 106);
    assert_eq!(token.summary().unwrap().liquidity, 11_836);
}

#[test]
fn blank_token_reads() {
    let token = PapexToken::new();
    assert_eq!(token.total_supply(), 0);
    assert_eq!(token.liquidity(), 0);
    assert_eq!(token.balance_of(account(1)), 0);
    assert_eq!(token.config().err(), Some(TokenError::NotInitialized));
    assert_eq!(token.summary().err(), Some(TokenError::NotInitialized));
    assert_eq!(token.current_price(), Err(TokenError::NotInitialized));
    assert_eq!(token.quote_buy(1), Err(TokenError::NotInitialized));
    assert_eq!(token.quote_sell(1), Err(TokenError::NotInitialized));
    assert_eq!(token.balances().rows().len(), 0);
}

#[test]
fn blank_token_refuses_transitions() {
    let mut token = PapexToken::new();
    let a = account(1);
    assert_eq!(token.set_trading(a, true).err(), Some(TokenError::NotInitialized));
    assert_eq!(token.deposit_liquidity(a, true, 5).err(), Some(TokenError::NotInitialized));
    assert_eq!(token.withdraw_liquidity(a, true, 5, a).err(), Some(TokenError::NotInitialized));
    assert_eq!(token.buy(a, true, 5, 1_000).err(), Some(TokenError::NotInitialized));
    assert_eq!(token.sell(a, true, 5, 0).err(), Some(TokenError::NotInitialized));
    assert_eq!(token.transfer(a, true, account(2), 5).err(), Some(TokenError::InsufficientBalance));
}

#[test]
fn init_writes_configuration_and_reports_event() {
    let owner = account(1);
    let mut token = PapexToken::new();
    let effects = token
        .init(owner, true, String::from("Paper Token"), String::from("PAPER"), 1_000, 100, 2, None, 100, 10_000)
        .unwrap();
    assert_eq!(effects.payment, None);
    match effects.event {
        TokenEvent::Init { owner: o, name, symbol, max_supply, initial_liquidity } => {
            assert_eq!(o, owner);
            assert_eq!(name, "Paper Token");
            assert_eq!(symbol, "PAPER");
            assert_eq!(max_supply, 1_000);
            assert_eq!(initial_liquidity, 10_000);
        }
        other => panic!("unexpected event {:?}", other),
    }
    let cfg: Config = token.config().unwrap();
    assert_eq!(cfg.name, "Paper Token");
    assert_eq!(cfg.symbol, "PAPER");
    assert_eq!(cfg.owner, owner);
    assert_eq!(cfg.max_supply, 1_000);
    assert_eq!(cfg.base_price, 100);
    assert_eq!(cfg.slope, 2);
    assert_eq!(cfg.payment_token, None);
    assert_eq!(cfg.trading, false);
    let summary = token.summary().unwrap();
    assert_eq!(summary.name, "Paper Token");
    assert_eq!(summary.symbol, "PAPER");
    assert_eq!(summary.owner, owner);
    assert_eq!(summary.max_supply, 1_000);
    assert_eq!(summary.base_price, 100);
    assert_eq!(summary.slope, 2);
    assert_eq!(summary.payment_token, None);
    assert_eq!(token.balances().rows().as_slice(), &[Holding { holder: owner, amount: 100 }]);
}

#[test]
fn init_pulls_initial_liquidity_from_owner() {
    let owner = account(1);
    let asset = contract(9);
    let mut token = PapexToken::new();
    let effects = token
        .init(owner, true, String::from("T"), String::from("T"), 10, 1, 0, Some(asset), 0, 500)
        .unwrap();
    assert_eq!(effects.payment, Some(Payment::Pull { asset, from: owner, amount: 500 }));
    assert_eq!(token.balances().rows().len(), 0);
    assert_eq!(token.liquidity(), 500);

    let mut dry = PapexToken::new();
    let effects = dry
        .init(owner, true, String::from("T"), String::from("T"), 10, 1, 0, Some(asset), 0, 0)
        .unwrap();
    assert_eq!(effects.payment, None);
}

#[test]
fn init_refusals_in_order() {
    let owner = account(1);
    let name = || String::from("T");
    let mut token = PapexToken::new();
    assert_eq!(
        token.init(owner, false, name(), name(), 0, 0, -1, None, -1, -1).err(),
        Some(TokenError::Unauthorized)
    );
    assert_eq!(
        token.init(owner, true, name(), name(), 0, 1, 0, None, -1, 0).err(),
        Some(TokenError::InvalidConfig)
    );
    assert_eq!(
        token.init(owner, true, name(), name(), 1, 0, 0, None, 0, 0).err(),
        Some(TokenError::InvalidConfig)
    );
    assert_eq!(
        token.init(owner, true, name(), name(), 1, 1, -1, None, 0, 0).err(),
        Some(TokenError::InvalidConfig)
    );
    assert_eq!(
        token.init(owner, true, name(), name(), 10, 1, 0, None, -1, 0).err(),
        Some(TokenError::InvalidInit)
    );
    assert_eq!(
        token.init(owner, true, name(), name(), 10, 1, 0, None, 0, -1).err(),
        Some(TokenError::InvalidInit)
    );
    assert_eq!(
        token.init(owner, true, name(), name(), 10, 1, 0, None, 11, 0).err(),
        Some(TokenError::InvalidInit)
    );
    assert_eq!(token.config().err(), Some(TokenError::NotInitialized));
    assert!(token.init(owner, true, name(), name(), 10, 1, 0, None, 10, 0).is_ok());
    assert_eq!(token.total_supply(), 10);
    assert_eq!(
        token.init(owner, false, name(), name(), 0, 0, 0, None, 0, 0).err(),
        Some(TokenError::AlreadyInitialized)
    );
    assert_eq!(token.total_supply(), 10);
}

#[test]
fn set_trading_is_for_the_owner() {
    let (mut token, owner) = fresh(None);
    assert_eq!(token.set_trading(account(2), true).err(), Some(TokenError::Unauthorized));
    assert_eq!(token.config().unwrap().trading, false);
    match token.set_trading(owner, true).unwrap() {
        TokenEvent::Trading { is_on } => assert!(is_on),
        other => panic!("unexpected event {:?}", other),
    }
    assert_eq!(token.config().unwrap().trading, true);
    token.set_trading(owner, true).unwrap();
    assert_eq!(token.config().unwrap().trading, true);
    token.set_trading(owner, false).unwrap();
    assert_eq!(token.summary().unwrap().trading, false);
}

#[test]
fn ensure_amount_accepts_positive_only() {
    assert_eq!(PapexToken::ensure_amount(1), Ok(()));
    assert_eq!(PapexToken::ensure_amount(i128::MAX), Ok(()));
    assert_eq!(PapexToken::ensure_amount(0), Err(TokenError::InvalidAmount));
    assert_eq!(PapexToken::ensure_amount(-1), Err(TokenError::InvalidAmount));
    assert_eq!(PapexToken::ensure_amount(i128::MIN), Err(TokenError::InvalidAmount));
}

#[test]
fn bonding_quote_exact_values() {
    assert_eq!(
        PapexToken::bonding_quote(100, 2, 100, 10, true),
        Ok(Quote { cost: 3100, price_before: 300, price_after: 320 })
    );
    assert_eq!(
        PapexToken::bonding_quote(100, 2, 110, 4, false),
        Ok(Quote { cost: 1264, price_before: 312, price_after: 320 })
    );
    assert_eq!(
        PapexToken::bonding_quote(100, 0, 5, 3, true),
        Ok(Quote { cost: 300, price_before: 100, price_after: 100 })
    );
    assert_eq!(
        PapexToken::bonding_quote(1, 1, 0, 1, true),
        Ok(Quote { cost: 1, price_before: 1, price_after: 2 })
    );
}

#[test]
fn bonding_quote_floors_the_average_before_multiplying() {
    // prices 10 and 13: the average 11.5 is floored to 11, so 3 units cost 33, not 34
    assert_eq!(
        PapexToken::bonding_quote(10, 1, 0, 3, true),
        Ok(Quote { cost: 33, price_before: 10, price_after: 13 })
    );
    // a negative sum of prices is floored too, away from zero
    assert_eq!(
        PapexToken::bonding_quote(-2, 1, 0, 1, true),
        Ok(Quote { cost: -2, price_before: -2, price_after: -1 })
    );
}

#[test]
fn bonding_quote_refusals() {
    assert_eq!(
        PapexToken::bonding_quote(100, 2, 3, 4, false),
        Err(TokenError::InsufficientSupply)
    );
    assert_eq!(
        PapexToken::bonding_quote(100, 2, i128::MIN, 1, false),
        Err(TokenError::InsufficientSupply)
    );
    assert_eq!(
        PapexToken::bonding_quote(100, 2, 4, 4, false),
        Ok(Quote { cost: 416, price_before: 100, price_after: 108 })
    );
    assert_eq!(
        PapexToken::bonding_quote(100, 2, i128::MAX, 1, true),
        Err(TokenError::ArithmeticOverflow)
    );
    assert_eq!(
        PapexToken::bonding_quote(100, 2, i128::MAX, -1, false),
        Err(TokenError::ArithmeticOverflow)
    );
    assert_eq!(
        PapexToken::bonding_quote(100, i128::MAX, 2, 1, true),
        Err(TokenError::ArithmeticOverflow)
    );
    assert_eq!(
        PapexToken::bonding_quote(i128::MAX, 1, 1, 1, true),
        Err(TokenError::ArithmeticOverflow)
    );
    // both prices fit, their sum does not
    assert_eq!(
        PapexToken::bonding_quote(i128::MAX / 2 + 1, 0, 0, 1, true),
        Err(TokenError::ArithmeticOverflow)
    );
    // the average fits, the cost does not
    assert_eq!(
        PapexToken::bonding_quote(i128::MAX / 2, 0, 0, 3, true),
        Err(TokenError::ArithmeticOverflow)
    );
    assert_eq!(
        PapexToken::bonding_quote(i128::MAX / 2, 0, 0, 2, true),
        Ok(Quote { cost: i128::MAX - 1, price_before: i128::MAX / 2, price_after: i128::MAX / 2 })
    );
}

#[test]
fn quotes_reject_non_positive_amounts() {
    let (token, _) = open(None);
    assert_eq!(token.quote_buy(0), Err(TokenError::InvalidAmount));
    assert_eq!(token.quote_buy(-5), Err(TokenError::InvalidAmount));
    assert_eq!(token.quote_sell(0), Err(TokenError::InvalidAmount));
    assert_eq!(token.quote_sell(-5), Err(TokenError::InvalidAmount));
    let blank = PapexToken::new();
    assert_eq!(blank.quote_buy(0), Err(TokenError::InvalidAmount));
}

#[test]
fn quotes_and_price_at_current_supply() {
    let (token, _) = open(None);
    assert_eq!(token.current_price(), Ok(300));
    assert_eq!(
        token.quote_buy(10),
        Ok(Quote { cost: 3100, price_before: 300, price_after: 320 })
    );
    assert_eq!(
        token.quote_sell(10),
        Ok(Quote { cost: 2900, price_before: 280, price_after: 300 })
    );
    assert_eq!(
        token.quote_sell(100),
        Ok(Quote { cost: 20_000, price_before: 100, price_after: 300 })
    );
    assert_eq!(token.quote_sell(101), Err(TokenError::InsufficientSupply));
}

#[test]
fn reads_leave_the_state_alone_and_repeat() {
    let (token, owner) = open(None);
    let first = (token.quote_buy(7), token.quote_sell(7), token.balance_of(owner));
    let summary = token.summary().unwrap();
    for _ in 0..3 {
        assert_eq!((token.quote_buy(7), token.quote_sell(7), token.balance_of(owner)), first);
        let again = token.summary().unwrap();
        assert_eq!(again.total_supply, summary.total_supply);
        assert_eq!(again.liquidity, summary.liquidity);
        assert_eq!(again.trading, summary.trading);
        assert_eq!(again.name, summary.name);
    }
    assert_eq!(token.total_supply(), 100);
    assert_eq!(token.liquidity(), 10_000);
    assert_eq!(token.current_price(), Ok(300));
}

#[test]
fn price_rises_with_supply() {
    let (mut token, _) = open(None);
    let buyer = account(2);
    let mut last = token.current_price().unwrap();
    for amount in [1i128, 5, 20] {
        let (quote, _) = token.buy(buyer, true, amount, i128::MAX).unwrap();
        let now = token.current_price().unwrap();
        assert!(now > last);
        assert_eq!(quote.price_before, last);
        assert_eq!(quote.price_after, now);
        last = now;
    }
    assert_eq!(last, 100 + 2 * 126);
}

#[test]
fn round_trip_returns_what_was_paid() {
    let (mut token, _) = open(None);
    let buyer = account(2);
    let (bought, _) = token.buy(buyer, true, 10, 10_000).unwrap();
    assert_eq!(bought.cost, 3100);
    assert_eq!(token.total_supply(), 110);
    let (sold, _) = token.sell(buyer, true, 10, 0).unwrap();
    assert_eq!(sold.cost, 3100);
    assert!(sold.cost <= bought.cost);
    assert_eq!(token.total_supply(), 100);
    assert_eq!(token.liquidity(), 10_000);
    assert_eq!(token.balance_of(buyer), 0);
}

#[test]
fn trading_gate_closes_buy_and_sell() {
    let (mut token, owner) = fresh(None);
    assert_eq!(token.buy(account(2), true, 10, 10_000).err(), Some(TokenError::TradingDisabled));
    assert_eq!(token.sell(owner, true, 10, 0).err(), Some(TokenError::TradingDisabled));
    // calls that are invalid in other ways get the same answer while the market is closed
    assert_eq!(token.buy(account(2), true, 5_000, 0).err(), Some(TokenError::TradingDisabled));
    assert_eq!(token.sell(account(2), true, 5_000, i128::MAX).err(), Some(TokenError::TradingDisabled));
    // the amount and the caller's proof are looked at first
    assert_eq!(token.buy(account(2), true, 0, 0).err(), Some(TokenError::InvalidAmount));
    assert_eq!(token.sell(owner, false, 1, 0).err(), Some(TokenError::Unauthorized));
    assert_eq!(token.total_supply(), 100);
    assert_eq!(token.liquidity(), 10_000);
    // transfers and liquidity management stay available
    assert!(token.transfer(owner, true, account(2), 1).is_ok());
    assert!(token.deposit_liquidity(account(2), true, 1).is_ok());
    assert!(token.withdraw_liquidity(owner, true, 1, owner).is_ok());
}

#[test]
fn cap_is_exact() {
    let (mut token, _) = open(None);
    let buyer = account(2);
    assert_eq!(token.buy(buyer, true, 901, i128::MAX).err(), Some(TokenError::ExceedsMaxSupply));
    assert_eq!(token.total_supply(), 100);
    assert_eq!(token.buy(buyer, true, i128::MAX, i128::MAX).err(), Some(TokenError::ExceedsMaxSupply));
    let (quote, _) = token.buy(buyer, true, 900, i128::MAX).unwrap();
    // prices 300 and 2100, average 1200
    assert_eq!(quote.cost, 1_080_000);
    assert_eq!(token.total_supply(), 1_000);
    assert_eq!(token.buy(buyer, true, 1, i128::MAX).err(), Some(TokenError::ExceedsMaxSupply));
}

#[test]
fn buy_ceiling_is_exact() {
    let (mut token, _) = open(None);
    let buyer = account(2);
    assert_eq!(token.buy(buyer, true, 10, 3_099).err(), Some(TokenError::InsufficientPayment));
    assert_eq!(token.total_supply(), 100);
    assert_eq!(token.balance_of(buyer), 0);
    assert_eq!(token.liquidity(), 10_000);
    let (quote, _) = token.buy(buyer, true, 10, 3_100).unwrap();
    assert_eq!(quote.cost, 3_100);
}

#[test]
fn sell_floor_is_exact() {
    let (mut token, owner) = open(None);
    // prices 280 and 300, average 290
    assert_eq!(token.sell(owner, true, 10, 2_901).err(), Some(TokenError::Slippage));
    assert_eq!(token.total_supply(), 100);
    assert_eq!(token.balance_of(owner), 100);
    let (quote, _) = token.sell(owner, true, 10, 2_900).unwrap();
    assert_eq!(quote.cost, 2_900);
    assert_eq!(token.liquidity(), 7_100);
}

#[test]
fn buy_refusals_in_order() {
    let (mut token, _) = open(None);
    let buyer = account(2);
    assert_eq!(token.buy(buyer, false, 0, 0).err(), Some(TokenError::InvalidAmount));
    assert_eq!(token.buy(buyer, false, -3, 0).err(), Some(TokenError::InvalidAmount));
    assert_eq!(token.buy(buyer, false, 5_000, 0).err(), Some(TokenError::Unauthorized));
    assert_eq!(token.buy(buyer, true, 5_000, 0).err(), Some(TokenError::ExceedsMaxSupply));
    assert_eq!(token.buy(buyer, true, 10, 0).err(), Some(TokenError::InsufficientPayment));
    assert_eq!(token.total_supply(), 100);
    assert_eq!(token.liquidity(), 10_000);
}

#[test]
fn buy_fails_on_overflow() {
    let owner = account(1);
    let mut steep = PapexToken::new();
    steep
        .init(owner, true, String::from("T"), String::from("T"), i128::MAX, 1, i128::MAX, None, 0, 0)
        .unwrap();
    steep.set_trading(owner, true).unwrap();
    assert_eq!(steep.buy(owner, true, 2, i128::MAX).err(), Some(TokenError::ArithmeticOverflow));
    assert_eq!(steep.quote_buy(2), Err(TokenError::ArithmeticOverflow));
    assert_eq!(steep.total_supply(), 0);

    let mut full = PapexToken::new();
    full.init(owner, true, String::from("T"), String::from("T"), 10, 1, 0, None, 0, i128::MAX)
        .unwrap();
    full.set_trading(owner, true).unwrap();
    assert_eq!(full.buy(owner, true, 1, 1).err(), Some(TokenError::ArithmeticOverflow));
    assert_eq!(full.total_supply(), 0);
    assert_eq!(full.liquidity(), i128::MAX);
    assert_eq!(full.deposit_liquidity(owner, true, 1).err(), Some(TokenError::ArithmeticOverflow));

    let mut high = PapexToken::new();
    high.init(owner, true, String::from("T"), String::from("T"), i128::MAX, 1, 2, None, i128::MAX, 0)
        .unwrap();
    assert_eq!(high.current_price(), Err(TokenError::ArithmeticOverflow));
}

#[test]
fn sell_refusals_in_order() {
    let (mut token, owner) = open(None);
    let other = account(2);
    assert_eq!(token.sell(other, false, 0, 0).err(), Some(TokenError::InvalidAmount));
    assert_eq!(token.sell(other, false, 1, 0).err(), Some(TokenError::Unauthorized));
    assert_eq!(token.sell(other, true, 1, i128::MAX).err(), Some(TokenError::InsufficientBalance));
    assert_eq!(token.sell(owner, true, 101, 0).err(), Some(TokenError::InsufficientBalance));
    assert_eq!(token.sell(owner, true, 100, i128::MAX).err(), Some(TokenError::Slippage));
    // selling everything would pay 20000 out of a pool of 10000
    assert_eq!(token.sell(owner, true, 100, 0).err(), Some(TokenError::InsufficientLiquidity));
    assert_eq!(token.total_supply(), 100);
    assert_eq!(token.balance_of(owner), 100);
    assert_eq!(token.liquidity(), 10_000);
    // at exactly the pool's size the sale goes through
    token.deposit_liquidity(other, true, 10_000).unwrap();
    let (quote, _) = token.sell(owner, true, 100, 20_000).unwrap();
    assert_eq!(quote.cost, 20_000);
    assert_eq!(token.liquidity(), 0);
    assert_eq!(token.total_supply(), 0);
}

#[test]
fn trades_report_payment_and_event() {
    let asset = contract(9);
    let (mut token, _) = open(Some(asset));
    let buyer = account(2);
    let (quote, Effects { payment, event }) = token.buy(buyer, true, 10, 10_000).unwrap();
    assert_eq!(payment, Some(Payment::Pull { asset, from: buyer, amount: 3_100 }));
    match event {
        TokenEvent::Buy { buyer: b, amount, cost, liquidity } => {
            assert_eq!((b, amount, cost, liquidity), (buyer, 10, quote.cost, 13_100));
        }
        other => panic!("unexpected event {:?}", other),
    }
    let (quote, Effects { payment, event }) = token.sell(buyer, true, 4, 1_200).unwrap();
    assert_eq!(payment, Some(Payment::Push { asset, to: buyer, amount: 1_264 }));
    match event {
        TokenEvent::Sell { seller, amount, cost, liquidity } => {
            assert_eq!((seller, amount, cost, liquidity), (buyer, 4, quote.cost, 11_836));
        }
        other => panic!("unexpected event {:?}", other),
    }
}

#[test]
fn transfer_moves_units() {
    let (mut token, owner) = fresh(None);
    let friend = account(2);
    match token.transfer(owner, true, friend, 30).unwrap() {
        TokenEvent::Transfer { from, to, amount } => {
            assert_eq!((from, to, amount), (owner, friend, 30));
        }
        other => panic!("unexpected event {:?}", other),
    }
    assert_eq!(token.balance_of(owner), 70);
    assert_eq!(token.balance_of(friend), 30);
    assert_eq!(token.total_supply(), 100);
    // to oneself: nothing changes
    token.transfer(owner, true, owner, 70).unwrap();
    assert_eq!(token.balance_of(owner), 70);
    // the whole balance
    token.transfer(friend, true, account(3), 30).unwrap();
    assert_eq!(token.balance_of(friend), 0);
    assert_eq!(token.balance_of(account(3)), 30);
    let total: i128 = token.balances().rows().iter().map(|row| row.amount).sum();
    assert_eq!(total, token.total_supply());
}

#[test]
fn transfer_refusals_in_order() {
    let (mut token, owner) = fresh(None);
    let friend = account(2);
    assert_eq!(token.transfer(owner, false, friend, 0).err(), Some(TokenError::InvalidAmount));
    assert_eq!(token.transfer(owner, false, friend, -1).err(), Some(TokenError::InvalidAmount));
    assert_eq!(token.transfer(owner, false, friend, 1).err(), Some(TokenError::Unauthorized));
    assert_eq!(token.transfer(owner, true, friend, 101).err(), Some(TokenError::InsufficientBalance));
    assert_eq!(token.transfer(friend, true, owner, 1).err(), Some(TokenError::InsufficientBalance));
    assert_eq!(token.balance_of(owner), 100);
    assert_eq!(token.balance_of(friend), 0);
    assert!(token.transfer(owner, true, friend, 100).is_ok());
}

#[test]
fn addresses_differ_by_kind_and_words() {
    let (mut token, owner) = fresh(None);
    token.transfer(owner, true, contract(1), 10).unwrap();
    token.transfer(owner, true, Address { contract: false, hi: 1, lo: 1 }, 20).unwrap();
    assert_eq!(token.balance_of(owner), 70);
    assert_eq!(token.balance_of(contract(1)), 10);
    assert_eq!(token.balance_of(Address { contract: false, hi: 1, lo: 1 }), 20);
    assert_eq!(token.balance_of(Address { contract: true, hi: 1, lo: 1 }), 0);
}

#[test]
fn liquidity_deposit_and_withdrawal() {
    let asset = contract(9);
    let (mut token, owner) = fresh(Some(asset));
    let friend = account(2);
    let Effects { payment, event } = token.deposit_liquidity(friend, true, 250).unwrap();
    assert_eq!(payment, Some(Payment::Pull { asset, from: friend, amount: 250 }));
    match event {
        TokenEvent::LiquidityIn { caller, amount, liquidity } => {
            assert_eq!((caller, amount, liquidity), (friend, 250, 10_250));
        }
        other => panic!("unexpected event {:?}", other),
    }
    assert_eq!(token.liquidity(), 10_250);
    let Effects { payment, event } = token.withdraw_liquidity(owner, true, 10_250, friend).unwrap();
    assert_eq!(payment, Some(Payment::Push { asset, to: friend, amount: 10_250 }));
    match event {
        TokenEvent::LiquidityOut { caller, to, amount, liquidity } => {
            assert_eq!((caller, to, amount, liquidity), (owner, friend, 10_250, 0));
        }
        other => panic!("unexpected event {:?}", other),
    }
    assert_eq!(token.liquidity(), 0);
    assert_eq!(token.withdraw_liquidity(owner, true, 1, owner).err(), Some(TokenError::InsufficientLiquidity));
    assert_eq!(token.liquidity(), 0);
}

#[test]
fn liquidity_refusals_in_order() {
    let (mut token, owner) = fresh(None);
    let friend = account(2);
    assert_eq!(token.deposit_liquidity(friend, false, 0).err(), Some(TokenError::InvalidAmount));
    assert_eq!(token.deposit_liquidity(friend, false, 1).err(), Some(TokenError::Unauthorized));
    assert_eq!(token.withdraw_liquidity(friend, false, 0, friend).err(), Some(TokenError::InvalidAmount));
    assert_eq!(token.withdraw_liquidity(owner, false, 1, friend).err(), Some(TokenError::Unauthorized));
    assert_eq!(token.withdraw_liquidity(friend, true, 1, friend).err(), Some(TokenError::Unauthorized));
    assert_eq!(token.withdraw_liquidity(friend, true, 20_000, friend).err(), Some(TokenError::Unauthorized));
    assert_eq!(token.withdraw_liquidity(owner, true, 10_001, friend).err(), Some(TokenError::InsufficientLiquidity));
    assert_eq!(token.liquidity(), 10_000);
    let effects = token.withdraw_liquidity(owner, true, 10_000, friend).unwrap();
    assert_eq!(effects.payment, None);
    assert_eq!(token.liquidity(), 0);
}

#[test]
fn conservation_over_a_run() {
    let (mut token, owner) = open(None);
    let a = account(2);
    let b = account(3);
    token.buy(a, true, 50, i128::MAX).unwrap();
    token.transfer(a, true, b, 20).unwrap();
    token.sell(b, true, 5, 0).unwrap();
    token.transfer(owner, true, a, 100).unwrap();
    token.buy(b, true, 1, i128::MAX).unwrap();
    let rows = token.balances().rows();
    let total: i128 = rows.iter().map(|row| row.amount).sum();
    assert_eq!(total, token.total_supply());
    assert_eq!(token.total_supply(), 146);
    assert!(rows.iter().all(|row| row.amount >= 0));
    assert!(token.total_supply() <= token.config().unwrap().max_supply);
    assert!(token.liquidity() >= 0);
    assert_eq!(token.balance_of(owner), 0);
    assert_eq!(token.balance_of(a), 130);
    assert_eq!(token.balance_of(b), 16);
}

#[test]
fn restore_accepts_a_live_state() {
    let (mut token, owner) = open(None);
    token.buy(account(2), true, 10, 10_000).unwrap();
    let restored = PapexToken::restore(
        Some(token.config().unwrap()),
        token.balances().rows().clone(),
        token.total_supply(),
        token.liquidity(),
    )
    .unwrap();
    assert_eq!(restored.total_supply(), 110);
    assert_eq!(restored.liquidity(), 13_100);
    assert_eq!(restored.balance_of(owner), 100);
    assert_eq!(restored.balance_of(account(2)), 10);
    assert_eq!(restored.config().unwrap().trading, true);
    assert!(PapexToken::restore(None, Vec::new(), 0, 0).is_some());
}

#[test]
fn restore_rejects_broken_records() {
    let (token, owner) = fresh(None);
    let cfg = || Some(token.config().unwrap());
    let rows = || vec![Holding { holder: owner, amount: 100 }];
    assert!(PapexToken::restore(cfg(), rows(), 100, 10_000).is_some());
    // balances do not add up to the supply
    assert!(PapexToken::restore(cfg(), rows(), 99, 10_000).is_none());
    assert!(PapexToken::restore(cfg(), Vec::new(), 100, 10_000).is_none());
    // a holder with two rows
    let twice = vec![Holding { holder: owner, amount: 50 }, Holding { holder: owner, amount: 50 }];
    assert!(PapexToken::restore(cfg(), twice, 100, 10_000).is_none());
    // a negative balance
    let negative = vec![Holding { holder: owner, amount: 101 }, Holding { holder: account(2), amount: -1 }];
    assert!(PapexToken::restore(cfg(), negative, 100, 10_000).is_none());
    // supply above the cap, negative liquidity
    let many = vec![Holding { holder: owner, amount: 1_001 }];
    assert!(PapexToken::restore(cfg(), many, 1_001, 10_000).is_none());
    assert!(PapexToken::restore(cfg(), rows(), 100, -1).is_none());
    // a sum that leaves the range
    let huge = vec![Holding { holder: owner, amount: i128::MAX }, Holding { holder: account(2), amount: 1 }];
    assert!(PapexToken::restore(cfg(), huge, 100, 0).is_none());
    // no configuration, yet something issued or pooled
    assert!(PapexToken::restore(None, rows(), 100, 0).is_none());
    assert!(PapexToken::restore(None, Vec::new(), 0, 1).is_none());
    // an invalid configuration
    let mut bad = token.config().unwrap();
    bad.base_price = 0;
    assert!(PapexToken::restore(Some(bad), rows(), 100, 0).is_none());
}
