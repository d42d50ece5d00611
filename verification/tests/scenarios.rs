use trading_engine::{
    AnyOrder, EngineError, FuturesOrderRequest, FuturesSide, Market, MarketKind, OptionSide,
    OptionsOrderRequest, Order, TradingEngine,
};

fn pair(base: &str, quote: &str) -> [String; 2] {
    [base.to_string(), quote.to_string()]
}

fn call_request(user: &str, coins: &[String; 2], strike_price: u128, premium: u128) -> OptionsOrderRequest {
    OptionsOrderRequest {
        user: user.to_string(),
        coins: coins.clone(),
        side: OptionSide::CALL,
        strike_price,
        premium,
        expiry: 1630000000,
    }
}

fn ask_request(user: &str, coins: &[String; 2], price: u128) -> FuturesOrderRequest {
    FuturesOrderRequest {
        user: user.to_string(),
        coins: coins.clone(),
        side: FuturesSide::ASK,
        price,
        expiry: 1630000000,
    }
}

/// An options engine with the pair EUR/USD at 100, a million USD each for
/// Alice and Bob, and Alice's call order at premium 5.
fn eur_usd_engine() -> (TradingEngine, [String; 2]) {
    let mut engine = TradingEngine::new(MarketKind::OPTIONS);
    let coins = pair("EUR", "USD");
    engine.add_pair(&coins, 100).unwrap();
    engine.add_balance("Alice", "USD", 1_000_000).unwrap();
    engine.add_balance("Bob", "USD", 1_000_000).unwrap();
    engine.create_order(call_request("Alice", &coins, 110, 5)).unwrap();
    (engine, coins)
}

fn last_order(engine: &TradingEngine, coins: &[String; 2]) -> AnyOrder {
    engine.get_orders(coins).unwrap().last().unwrap().clone()
}

#[test]
fn fill_moves_premium_from_taker_to_writer() {
    let (mut engine, coins) = eur_usd_engine();
    let mut order = last_order(&engine, &coins);
    assert_eq!(order.get_quantity(), 0);
    assert_eq!(order.get_buyer(), "");

    assert_eq!(engine.fulfill_order(&mut order, "Bob", 1000), Ok(()));

    assert_eq!(engine.balance_of("Bob", "USD"), Some(995_000));
    assert_eq!(engine.balance_of("Alice", "USD"), Some(1_005_000));
    assert_eq!(order.get_quantity(), 1000);
    assert_eq!(order.get_buyer(), "Bob");
    assert_eq!(order.get_writer(), "Alice");
}

#[test]
fn second_fill_beyond_balance_changes_nothing() {
    let (mut engine, coins) = eur_usd_engine();
    let mut order = last_order(&engine, &coins);
    assert_eq!(engine.fulfill_order(&mut order, "Bob", 1000), Ok(()));

    // Bob holds 995,000 and would owe 200,000 * 5 = 1,000,000.
    assert_eq!(
        engine.fulfill_order(&mut order, "Bob", 200_000),
        Err(EngineError::InsufficientBalance)
    );

    assert_eq!(order.get_quantity(), 1000);
    assert_eq!(order.get_buyer(), "Bob");
    assert_eq!(engine.balance_of("Bob", "USD"), Some(995_000));
    assert_eq!(engine.balance_of("Alice", "USD"), Some(1_005_000));
}

#[test]
fn subtract_from_unknown_user_is_user_not_found() {
    let mut engine = TradingEngine::new(MarketKind::OPTIONS);
    assert_eq!(engine.subtract_balance("Dave", "USD", 100), Err(EngineError::UserNotFound));
    assert_eq!(engine.balance_of("Dave", "USD"), None);
}

#[test]
fn fill_conserves_the_sum_of_both_balances() {
    let mut engine = TradingEngine::new(MarketKind::FUTURES);
    let coins = pair("BTC", "USD");
    engine.add_pair(&coins, 50000).unwrap();
    engine.create_order(ask_request("Alice", &coins, 52000)).unwrap();
    engine.add_balance("Alice", "USD", 7).unwrap();
    engine.add_balance("Bob", "USD", 200_000).unwrap();
    let mut order = last_order(&engine, &coins);

    assert_eq!(engine.fulfill_order(&mut order, "Bob", 3), Ok(()));

    let alice = engine.balance_of("Alice", "USD").unwrap();
    let bob = engine.balance_of("Bob", "USD").unwrap();
    assert_eq!(alice, 7 + 3 * 52000);
    assert_eq!(bob, 200_000 - 3 * 52000);
    assert_eq!(alice + bob, 7 + 200_000);
}

#[test]
fn fill_pays_in_the_quote_coin_only() {
    let mut engine = TradingEngine::new(MarketKind::FUTURES);
    let coins = pair("BTC", "USD");
    engine.add_pair(&coins, 50000).unwrap();
    engine.create_order(ask_request("Alice", &coins, 10)).unwrap();
    engine.add_balance("Bob", "BTC", 500).unwrap();
    engine.add_balance("Bob", "USD", 500).unwrap();
    engine.add_balance("Carol", "USD", 9).unwrap();
    let mut order = last_order(&engine, &coins);

    assert_eq!(engine.fulfill_order(&mut order, "Bob", 20), Ok(()));

    assert_eq!(engine.balance_of("Bob", "BTC"), Some(500));
    assert_eq!(engine.balance_of("Bob", "USD"), Some(300));
    assert_eq!(engine.balance_of("Alice", "USD"), Some(200));
    assert_eq!(engine.balance_of("Alice", "BTC"), None);
    assert_eq!(engine.balance_of("Carol", "USD"), Some(9));
}

#[test]
fn fill_by_the_writer_leaves_the_balance() {
    let (mut engine, coins) = eur_usd_engine();
    let mut order = last_order(&engine, &coins);

    assert_eq!(engine.fulfill_order(&mut order, "Alice", 10), Ok(()));

    assert_eq!(engine.balance_of("Alice", "USD"), Some(1_000_000));
    assert_eq!(order.get_quantity(), 10);
    assert_eq!(order.get_buyer(), "Alice");
}

#[test]
fn fill_by_the_writer_near_the_limit_does_not_overflow() {
    let mut engine = TradingEngine::new(MarketKind::FUTURES);
    let coins = pair("BTC", "USD");
    engine.add_pair(&coins, 1).unwrap();
    engine.create_order(ask_request("Alice", &coins, 1)).unwrap();
    engine.add_balance("Alice", "USD", u128::MAX).unwrap();
    let mut order = last_order(&engine, &coins);

    assert_eq!(engine.fulfill_order(&mut order, "Alice", 5), Ok(()));
    assert_eq!(engine.balance_of("Alice", "USD"), Some(u128::MAX));
}

#[test]
fn fills_add_up_and_the_last_taker_is_the_counterparty() {
    let (mut engine, coins) = eur_usd_engine();
    engine.add_balance("Carol", "USD", 100).unwrap();
    let mut order = last_order(&engine, &coins);

    assert_eq!(engine.fulfill_order(&mut order, "Bob", 4), Ok(()));
    assert_eq!(engine.fulfill_order(&mut order, "Carol", 6), Ok(()));

    assert_eq!(order.get_quantity(), 10);
    assert_eq!(order.get_buyer(), "Carol");
    assert_eq!(engine.balance_of("Bob", "USD"), Some(1_000_000 - 20));
    assert_eq!(engine.balance_of("Carol", "USD"), Some(100 - 30));
    assert_eq!(engine.balance_of("Alice", "USD"), Some(1_000_000 + 50));
}

#[test]
fn fill_leaves_the_order_in_the_market_as_it_was() {
    let (mut engine, coins) = eur_usd_engine();
    let mut order = last_order(&engine, &coins);
    assert_eq!(engine.fulfill_order(&mut order, "Bob", 1000), Ok(()));

    let resting = last_order(&engine, &coins);
    assert_eq!(resting.get_quantity(), 0);
    assert_eq!(resting.get_buyer(), "");
    assert_eq!(engine.get_orders(&coins).unwrap().len(), 1);
}

#[test]
fn fill_with_overflowing_payment_touches_no_balance() {
    let (mut engine, coins) = eur_usd_engine();
    let mut order = last_order(&engine, &coins);

    // u128::MAX / 5 + 1 units at premium 5 is more than 128 bits hold.
    assert_eq!(
        engine.fulfill_order(&mut order, "Bob", u128::MAX / 5 + 1),
        Err(EngineError::ArithmeticOverflow)
    );

    assert_eq!(engine.balance_of("Bob", "USD"), Some(1_000_000));
    assert_eq!(engine.balance_of("Alice", "USD"), Some(1_000_000));
    assert_eq!(order.get_quantity(), 0);
    assert_eq!(order.get_buyer(), "");
}

#[test]
fn fill_with_largest_payment_that_fits_is_not_an_overflow() {
    let (mut engine, coins) = eur_usd_engine();
    let mut order = last_order(&engine, &coins);

    // u128::MAX is divisible by 5, so this payment is exactly u128::MAX.
    assert_eq!(
        engine.fulfill_order(&mut order, "Bob", u128::MAX / 5),
        Err(EngineError::InsufficientBalance)
    );
}

#[test]
fn fill_by_unknown_taker_is_user_not_found() {
    let (mut engine, coins) = eur_usd_engine();
    let mut order = last_order(&engine, &coins);

    assert_eq!(engine.fulfill_order(&mut order, "Dave", 1), Err(EngineError::UserNotFound));

    assert_eq!(engine.balance_of("Alice", "USD"), Some(1_000_000));
    assert_eq!(engine.balance_of("Dave", "USD"), None);
    assert_eq!(order.get_quantity(), 0);
}

#[test]
fn fill_by_taker_without_the_quote_coin_is_coin_not_found() {
    let (mut engine, coins) = eur_usd_engine();
    engine.add_balance("Dave", "EUR", 1_000).unwrap();
    let mut order = last_order(&engine, &coins);

    assert_eq!(engine.fulfill_order(&mut order, "Dave", 1), Err(EngineError::CoinNotFound));

    assert_eq!(engine.balance_of("Dave", "EUR"), Some(1_000));
    assert_eq!(engine.balance_of("Dave", "USD"), None);
    assert_eq!(engine.balance_of("Alice", "USD"), Some(1_000_000));
    assert_eq!(order.get_quantity(), 0);
}

#[test]
fn fill_that_would_overflow_the_writer_takes_nothing_from_the_taker() {
    let mut engine = TradingEngine::new(MarketKind::FUTURES);
    let coins = pair("BTC", "USD");
    engine.add_pair(&coins, 1).unwrap();
    engine.create_order(ask_request("Alice", &coins, 2)).unwrap();
    engine.add_balance("Alice", "USD", u128::MAX - 1).unwrap();
    engine.add_balance("Bob", "USD", 100).unwrap();
    let mut order = last_order(&engine, &coins);

    assert_eq!(engine.fulfill_order(&mut order, "Bob", 1), Err(EngineError::ArithmeticOverflow));

    assert_eq!(engine.balance_of("Bob", "USD"), Some(100));
    assert_eq!(engine.balance_of("Alice", "USD"), Some(u128::MAX - 1));
    assert_eq!(order.get_quantity(), 0);
    assert_eq!(order.get_buyer(), "");
}

#[test]
fn fill_that_would_overflow_the_filled_quantity_changes_nothing() {
    let mut engine = TradingEngine::new(MarketKind::FUTURES);
    let coins = pair("BTC", "USD");
    engine.add_pair(&coins, 1).unwrap();
    engine.create_order(ask_request("Alice", &coins, 0)).unwrap();
    engine.add_balance("Bob", "USD", 100).unwrap();
    let mut order = last_order(&engine, &coins);

    // At price zero nothing is owed, so any quantity can be filled once.
    assert_eq!(engine.fulfill_order(&mut order, "Bob", u128::MAX), Ok(()));
    assert_eq!(order.get_quantity(), u128::MAX);
    assert_eq!(engine.balance_of("Alice", "USD"), Some(0));

    assert_eq!(engine.fulfill_order(&mut order, "Carol", 1), Err(EngineError::UserNotFound));
    assert_eq!(engine.fulfill_order(&mut order, "Bob", 1), Err(EngineError::ArithmeticOverflow));
    assert_eq!(order.get_quantity(), u128::MAX);
    assert_eq!(order.get_buyer(), "Bob");
    assert_eq!(engine.balance_of("Bob", "USD"), Some(100));
}

#[test]
fn fill_of_an_order_held_directly() {
    let mut engine = TradingEngine::new(MarketKind::OPTIONS);
    engine.add_balance("Bob", "USD", 50).unwrap();
    let mut order = trading_engine::OptionsOrder::new(&call_request("Alice", &pair("EUR", "USD"), 110, 5));

    assert_eq!(engine.fulfill_order(&mut order, "Bob", 10), Ok(()));

    assert_eq!(order.get_quantity(), 10);
    assert_eq!(order.get_buyer(), "Bob");
    assert_eq!(order.get_price(), 5);
    assert_eq!(engine.balance_of("Bob", "USD"), Some(0));
    assert_eq!(engine.balance_of("Alice", "USD"), Some(50));
}

#[test]
fn orders_of_one_pair_do_not_show_under_another() {
    let mut engine = TradingEngine::new(MarketKind::OPTIONS);
    let eur_usd = pair("EUR", "USD");
    let usd_eur = pair("USD", "EUR");
    let btc_usd = pair("BTC", "USD");
    engine.add_pair(&eur_usd, 100).unwrap();
    engine.add_pair(&usd_eur, 1).unwrap();
    engine.add_pair(&btc_usd, 50000).unwrap();

    engine.create_order(call_request("Alice", &eur_usd, 110, 5)).unwrap();
    engine.create_order(call_request("Bob", &eur_usd, 120, 6)).unwrap();
    engine.create_order(call_request("Carol", &btc_usd, 60000, 7)).unwrap();

    let on_eur_usd = engine.get_orders(&eur_usd).unwrap();
    assert_eq!(on_eur_usd.len(), 2);
    assert_eq!(on_eur_usd[0].get_writer(), "Alice");
    assert_eq!(on_eur_usd[1].get_writer(), "Bob");
    assert!(on_eur_usd.iter().all(|o| o.get_coins() == &eur_usd));

    assert_eq!(engine.get_orders(&usd_eur).unwrap().len(), 0);

    let on_btc_usd = engine.get_orders(&btc_usd).unwrap();
    assert_eq!(on_btc_usd.len(), 1);
    assert_eq!(on_btc_usd[0].get_writer(), "Carol");
    assert_eq!(on_btc_usd[0].get_coins(), &btc_usd);
}

#[test]
fn futures_request_to_options_market_is_refused() {
    let mut engine = TradingEngine::new(MarketKind::OPTIONS);
    let coins = pair("EUR", "USD");
    engine.add_pair(&coins, 100).unwrap();

    assert_eq!(
        engine.create_order(ask_request("Alice", &coins, 5)),
        Err(EngineError::InvalidRequestKind)
    );
    assert_eq!(engine.get_orders(&coins).unwrap().len(), 0);
}

#[test]
fn options_request_to_futures_market_is_refused() {
    let mut engine = TradingEngine::new(MarketKind::FUTURES);
    let coins = pair("EUR", "USD");
    engine.add_pair(&coins, 100).unwrap();

    assert_eq!(
        engine.create_order(call_request("Alice", &coins, 110, 5)),
        Err(EngineError::InvalidRequestKind)
    );
    assert_eq!(engine.get_orders(&coins).unwrap().len(), 0);
}

#[test]
fn request_of_the_wrong_kind_is_refused_before_its_pair_is_looked_up() {
    let mut engine = TradingEngine::new(MarketKind::OPTIONS);
    let coins = pair("EUR", "USD");

    assert_eq!(
        engine.create_order(ask_request("Alice", &coins, 5)),
        Err(EngineError::InvalidRequestKind)
    );
    assert_eq!(
        engine.create_order(call_request("Alice", &coins, 110, 5)),
        Err(EngineError::PairNotFound)
    );
    assert_eq!(engine.market().get_pairs().len(), 0);
}

#[test]
fn orders_of_an_unregistered_pair_are_pair_not_found() {
    let mut engine = TradingEngine::new(MarketKind::FUTURES);
    engine.add_pair(&pair("EUR", "USD"), 100).unwrap();

    assert_eq!(engine.get_orders(&pair("USD", "EUR")).err(), Some(EngineError::PairNotFound));
    assert!(engine.market().get_orders(&pair("EUR", "GBP")).is_none());
    assert!(engine.market().get_orders(&pair("EUR", "USD")).is_some());
}
