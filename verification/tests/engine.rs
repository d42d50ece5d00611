use trading_engine::{
    AnyMarket, FuturesOrderRequest, FuturesSide, Market, MarketKind, OptionSide,
    OptionsOrderRequest, TradingEngine,
};

#[test]
fn test_add_pair() {
    let mut engine = TradingEngine::new(MarketKind::OPTIONS);
    let coins = ["BTC".to_string(), "USD".to_string()];
    assert!(engine.add_pair(&coins, 50000).is_ok());
    assert_eq!(engine.market().get_pairs().len(), 1);
}

#[test]
fn test_add_balance() {
    let mut engine = TradingEngine::new(MarketKind::OPTIONS);
    assert!(engine.add_balance("Alice", "BTC", 100).is_ok());
    assert!(engine.add_balance("Alice", "BTC", 50).is_ok());
    let balance = engine.balance_of("Alice", "BTC").unwrap();
    assert_eq!(balance, 150);
}

#[test]
fn test_subtract_balance() {
    let mut engine = TradingEngine::new(MarketKind::OPTIONS);
    assert!(engine.add_balance("Bob", "ETH", 100).is_ok());
    assert!(engine.subtract_balance("Bob", "ETH", 30).is_ok());
    let balance = engine.balance_of("Bob", "ETH").unwrap();
    assert_eq!(balance, 70);
}

#[test]
fn test_insufficient_balance() {
    let mut engine = TradingEngine::new(MarketKind::OPTIONS);
    assert!(engine.add_balance("Charlie", "USDT", 50).is_ok());
    assert!(engine.subtract_balance("Charlie", "USDT", 100).is_err());
}

#[test]
fn test_create_order() {
    let mut engine = TradingEngine::new(MarketKind::OPTIONS);
    let coins = ["ETH".to_string(), "USD".to_string()];
    assert!(engine.add_pair(&coins, 3000).is_ok());

    let order_request = Box::new(OptionsOrderRequest {
        user: "Dave".to_string(),
        coins: coins.clone(),
        side: OptionSide::CALL,
        strike_price: 3500,
        premium: 100,
        expiry: 1630000000,
    });

    assert!(engine.create_order(order_request).is_ok());
}

#[test]
fn test_futures_market_creation() {
    let engine = TradingEngine::new(MarketKind::FUTURES);
    assert!(matches!(engine.market(), AnyMarket::Futures(_)));
}

#[test]
fn test_options_market_creation() {
    let engine = TradingEngine::new(MarketKind::OPTIONS);
    assert!(matches!(engine.market(), AnyMarket::Options(_)));
}

#[test]
fn test_add_multiple_pairs() {
    let mut engine = TradingEngine::new(MarketKind::OPTIONS);
    let pairs = vec![
        (["BTC".to_string(), "USD".to_string()], 50000),
        (["ETH".to_string(), "USD".to_string()], 3000),
        (["XRP".to_string(), "USD".to_string()], 1),
    ];

    for (coins, price) in pairs {
        assert!(engine.add_pair(&coins, price).is_ok());
    }

    assert_eq!(engine.market().get_pairs().len(), 3);
}

#[test]
fn test_add_balance_multiple_users_and_coins() {
    let mut engine = TradingEngine::new(MarketKind::FUTURES);

    assert!(engine.add_balance("Alice", "BTC", 1000).is_ok());
    assert!(engine.add_balance("Alice", "ETH", 50).is_ok());
    assert!(engine.add_balance("Bob", "USD", 100000).is_ok());

    assert_eq!(engine.balance_of("Alice", "BTC").unwrap(), 1000);
    assert_eq!(engine.balance_of("Alice", "ETH").unwrap(), 50);
    assert_eq!(engine.balance_of("Bob", "USD").unwrap(), 100000);
}

#[test]
fn test_subtract_balance_error_handling() {
    let mut engine = TradingEngine::new(MarketKind::OPTIONS);

    assert!(engine.add_balance("Charlie", "USDT", 1000).is_ok());

    // Test subtracting more than available balance
    assert!(engine.subtract_balance("Charlie", "USDT", 1001).is_err());

    // Test subtracting from non-existent user
    assert!(engine.subtract_balance("David", "USDT", 100).is_err());

    // Test subtracting non-existent coin
    assert!(engine.subtract_balance("Charlie", "BTC", 1).is_err());
}

#[test]
fn test_create_and_fulfill_futures_order() {
    let mut engine = TradingEngine::new(MarketKind::FUTURES);
    let coins = ["BTC".to_string(), "USD".to_string()];
    assert!(engine.add_pair(&coins, 50000).is_ok());

    let order_request = Box::new(FuturesOrderRequest {
        user: "Alice".to_string(),
        coins: coins.clone(),
        side: FuturesSide::ASK,
        price: 52000,
        expiry: 1630000000,
    });

    assert!(engine.create_order(order_request).is_ok());

    // Add balances for users
    assert!(engine.add_balance("Alice", "BTC", 1).is_ok());
    assert!(engine.add_balance("Bob", "USD", 52000).is_ok());

    // Get the created order and fulfill it
    if let Some(orders) = engine.market().get_orders(&coins) {
        if let Some(order) = orders.last() {
            let mut order_clone = order.clone();
            assert!(engine.fulfill_order(&mut order_clone, "Bob", 1).is_ok());

            // Check balances after fulfillment
            assert_eq!(engine.balance_of("Alice", "USD").unwrap(), 52000);
            assert_eq!(engine.balance_of("Bob", "USD").unwrap(), 0);
        } else {
            panic!("No orders found");
        }
    } else {
        panic!("No orders found for the given pair");
    }
}

#[test]
fn test_order_fulfillment_with_insufficient_balance() {
    let mut engine = TradingEngine::new(MarketKind::OPTIONS);
    let coins = ["ETH".to_string(), "USD".to_string()];
    assert!(engine.add_pair(&coins, 3000).is_ok());

    let order_request = Box::new(OptionsOrderRequest {
        user: "Charlie".to_string(),
        coins: coins.clone(),
        side: OptionSide::CALL,
        strike_price: 3200,
        premium: 100,
        expiry: 1630000000,
    });

    assert!(engine.create_order(order_request).is_ok());

    // Add insufficient balance for Dave
    assert!(engine.add_balance("Dave", "USD", 50).is_ok());

    // Try to fulfill the order with insufficient balance
    if let Some(orders) = engine.market().get_orders(&coins) {
        if let Some(order) = orders.last() {
            let mut order_clone = order.clone();
            assert!(engine.fulfill_order(&mut order_clone, "Dave", 1).is_err());
        } else {
            panic!("No orders found");
        }
    } else {
        panic!("No orders found for the given pair");
    }
}
