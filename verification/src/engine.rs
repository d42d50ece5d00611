//! The trading engine: one market, the ledger, and the settlement of fills.

use vstd::prelude::*;
use crate::coins::{pair_key, quote_coin, CoinPair};
use crate::error::EngineError;
use crate::ledger::{available, credited, debited, transferred, Holdings, Ledger, LedgerView};
use crate::market::{admitted, keys_of, registered, AnyMarket, Market, MarketKind, MarketView, PairView};
use crate::order::{order_views, AnyOrder, Order, OrderView};
use crate::request::OrderRequest;

verus! {

/// What a taker owes for `quantity` of `order`: the quantity times the
/// order's price term.
pub open spec fn payment_due(order: OrderView, quantity: u128) -> int {
    quantity * order.price_term()
}

/// What comes of `taker` filling `quantity` of `order` against `ledger`: the
/// ledger and the order after the fill, or why there is no fill.
///
/// The payment is `payment_due`, in the quote coin of the order's pair. It
/// must fit in 128 bits; it is taken from the taker and added to the order's
/// writer, as `transferred` says; and the quantity filled so far must still
/// fit in 128 bits with `quantity` added. The first of these that fails
/// decides the error.
pub open spec fn fulfilled(
    ledger: LedgerView,
    order: OrderView,
    taker: Seq<char>,
    quantity: u128,
) -> Result<(LedgerView, OrderView), EngineError> {
    if payment_due(order, quantity) > u128::MAX {
        Err(EngineError::ArithmeticOverflow)
    } else {
        match transferred(
            ledger,
            taker,
            order.writer(),
            quote_coin(order.coins()),
            payment_due(order, quantity) as u128,
        ) {
            Err(e) => Err(e),
            Ok(settled) => if order.filled() + quantity > u128::MAX {
                Err(EngineError::ArithmeticOverflow)
            } else {
                Ok((settled, order.fill(taker, quantity)))
            },
        }
    }
}

/// An exchange for one kind of instrument: its market, and the balances of
/// its users.
pub struct TradingEngine {
    market: AnyMarket,
    balances: Ledger,
}

impl TradingEngine {
    /// The kind of instrument that the engine trades. It never changes.
    pub closed spec fn kind(&self) -> MarketKind {
        self.market.kind()
    }

    /// The registered pairs, by their keys.
    pub closed spec fn pairs(&self) -> MarketView {
        self.market.pairs()
    }

    /// The balances of all users.
    pub closed spec fn balances(&self) -> LedgerView {
        self.balances@
    }

    /// An engine for `params`, with no pairs and no balances.
    pub fn new(params: MarketKind) -> (engine: TradingEngine)
        ensures
            engine.kind() == params,
            engine.pairs() == Map::<CoinPair, PairView>::empty(),
            engine.balances() == Map::<Seq<char>, Holdings>::empty(),
    {
        match params {
            MarketKind::FUTURES => TradingEngine {
                market: AnyMarket::new(MarketKind::FUTURES),
                balances: Ledger::new(),
            },
            MarketKind::OPTIONS => TradingEngine {
                market: AnyMarket::new(MarketKind::OPTIONS),
                balances: Ledger::new(),
            },
        }
    }

    /// Registers the pair of `coins` with `initial_price` and no orders. A pair
    /// that was registered under the same coins is replaced. Never fails.
    pub fn add_pair(&mut self, coins: &[String; 2], initial_price: u128) -> (result: Result<
        (),
        EngineError,
    >)
        ensures
            result is Ok,
            final(self).pairs() == registered(old(self).pairs(), pair_key(coins), initial_price),
            final(self).kind() == old(self).kind(),
            final(self).balances() == old(self).balances(),
    {
        self.market.add_pair(coins, initial_price);
        Ok(())
    }

    /// Adds `amount` of `coin` to what `user` holds; the entries for the user
    /// and the coin are created where they are missing. Fails, and changes
    /// nothing, if the sum does not fit in 128 bits.
    pub fn add_balance(&mut self, user: &str, coin: &str, amount: u128) -> (result: Result<
        (),
        EngineError,
    >)
        ensures
            match credited(old(self).balances(), user@, coin@, amount) {
                Ok(ledger) => result is Ok && final(self).balances() == ledger,
                Err(e) => result == Err::<(), EngineError>(e) && final(self).balances() == old(
                    self,
                ).balances(),
            },
            final(self).pairs() == old(self).pairs(),
            final(self).kind() == old(self).kind(),
    {
        self.balances.credit(user, coin, amount)
    }

    /// Takes `amount` of `coin` from what `user` holds. Fails, and changes
    /// nothing, if the user has no entry, or none for the coin, or holds less
    /// than `amount`.
    pub fn subtract_balance(&mut self, user: &str, coin: &str, amount: u128) -> (result: Result<
        (),
        EngineError,
    >)
        ensures
            match debited(old(self).balances(), user@, coin@, amount) {
                Ok(ledger) => result is Ok && final(self).balances() == ledger,
                Err(e) => result == Err::<(), EngineError>(e) && final(self).balances() == old(
                    self,
                ).balances(),
            },
            final(self).pairs() == old(self).pairs(),
            final(self).kind() == old(self).kind(),
    {
        self.balances.debit(user, coin, amount)
    }

    /// The orders resting on the pair of `coins`, oldest first. Each of them
    /// trades that pair and is of the engine's kind. Fails if the pair is not
    /// registered.
    pub fn get_orders(&self, coins: &[String; 2]) -> (result: Result<&Vec<AnyOrder>, EngineError>)
        ensures
            match result {
                Ok(orders) => {
                    &&& self.pairs().contains_key(pair_key(coins))
                    &&& order_views(orders@) == self.pairs()[pair_key(coins)].orders
                    &&& forall|i: int|
                        0 <= i < orders.len() ==> (#[trigger] orders[i])@.coins() == pair_key(coins)
                            && orders[i]@.kind() == self.kind()
                },
                Err(e) => e == EngineError::PairNotFound && !self.pairs().contains_key(
                    pair_key(coins),
                ),
            },
    {
        match self.market.get_orders(coins) {
            Some(orders) => Ok(orders),
            None => Err(EngineError::PairNotFound),
        }
    }

    /// Lets `user` fill `quantity` of `order`. The payment, `quantity` times
    /// the order's price term, moves from the user to the order's writer in
    /// the quote coin of the order's pair, and `order` records the fill. The
    /// market is not touched: an order that was copied out of it is filled as
    /// a copy.
    ///
    /// The fill is refused as an overflow if the payment does not fit in 128
    /// bits; else if the user has no entry, or none for the quote coin, or
    /// holds less than the payment; else as an overflow if the writer's
    /// balance, or the quantity filled so far, would leave 128 bits. A refused
    /// fill changes nothing: neither balance, nor the order.
    pub fn fulfill_order<O: Order>(&mut self, order: &mut O, user: &str, quantity: u128) -> (result:
        Result<(), EngineError>)
        ensures
            match fulfilled(old(self).balances(), old(order)@, user@, quantity) {
                Ok((ledger, filled)) => {
                    &&& result is Ok
                    &&& final(self).balances() == ledger
                    &&& final(order)@ == filled
                },
                Err(e) => {
                    &&& result == Err::<(), EngineError>(e)
                    &&& final(self).balances() == old(self).balances()
                    &&& *final(order) == *old(order)
                },
            },
            final(self).pairs() == old(self).pairs(),
            final(self).kind() == old(self).kind(),
    {
        let payment = match quantity.checked_mul(order.get_price()) {
            Some(payment) => payment,
            None => {
                return Err(EngineError::ArithmeticOverflow);
            },
        };
        let settled = {
            let payment_coin = order.get_coins()[1].as_str();
            let writer = order.get_writer();
            match self.balances.check_transfer(user, writer, payment_coin, payment) {
                Err(e) => Err(e),
                Ok(()) => match order.get_quantity().checked_add(quantity) {
                    None => Err(EngineError::ArithmeticOverflow),
                    Some(_) => self.balances.transfer(user, writer, payment_coin, payment),
                },
            }
        };
        match settled {
            Err(e) => Err(e),
            Ok(()) => {
                order.fulfill(user.to_string(), quantity);
                Ok(())
            },
        }
    }

    /// Creates the order that `order_request` asks for, if the request is of
    /// the engine's kind and its pair is registered. A refused request changes
    /// nothing.
    pub fn create_order<R: OrderRequest>(&mut self, order_request: R) -> (result: Result<
        (),
        EngineError,
    >)
        ensures
            match admitted(old(self).kind(), old(self).pairs(), order_request.opened()) {
                Ok(pairs) => result is Ok && final(self).pairs() == pairs,
                Err(e) => result == Err::<(), EngineError>(e) && final(self).pairs() == old(
                    self,
                ).pairs(),
            },
            final(self).kind() == old(self).kind(),
            final(self).balances() == old(self).balances(),
    {
        self.market.create_order(order_request)
    }

    /// The coins of every registered pair, each pair once.
    pub fn get_pairs(&self) -> (keys: Vec<[String; 2]>)
        ensures
            keys_of(keys@).no_duplicates(),
            keys_of(keys@).to_set() == self.pairs().dom(),
    {
        self.market.get_pairs()
    }

    /// The reference price of the pair of `coins`. Fails if the pair is not
    /// registered.
    pub fn get_reference_price(&self, coins: &[String; 2]) -> (result: Result<u128, EngineError>)
        ensures
            result == (if self.pairs().contains_key(pair_key(coins)) {
                Ok::<u128, EngineError>(self.pairs()[pair_key(coins)].price)
            } else {
                Err(EngineError::PairNotFound)
            }),
    {
        match self.market.get_reference_price(coins) {
            Some(price) => Ok(price),
            None => Err(EngineError::PairNotFound),
        }
    }

    /// The balance of `user` in `coin`, if there is an entry for it.
    pub fn balance_of(&self, user: &str, coin: &str) -> (held: Option<u128>)
        ensures
            held == (match available(self.balances(), user@, coin@) {
                Ok(amount) => Some(amount),
                Err(_) => None,
            }),
    {
        self.balances.balance_of(user, coin)
    }

    /// The kind of instrument that the engine trades.
    pub fn market_kind(&self) -> (kind: MarketKind)
        ensures
            kind == self.kind(),
    {
        self.market.get_kind()
    }

    /// The engine's market.
    pub fn market(&self) -> (market: &AnyMarket)
        ensures
            market.kind() == self.kind(),
            market.pairs() == self.pairs(),
    {
        &self.market
    }
}

} // verus!
