//! Markets: the pairs of one kind of instrument and the orders resting on
//! them.

use vstd::prelude::*;
use crate::coins::{pair_key, CoinPair};
use crate::error::EngineError;
use crate::listing::{
    append_order, find_pair, keys_distinct, lemma_listing_at, listing, orders_belong, pair_keys,
    register_pair, Pair,
};
use crate::order::{order_views, AnyOrder, FuturesOrder, OptionsOrder, OrderView};
use crate::request::OrderRequest;

verus! {

/// The kind of instrument that a market trades.
#[derive(Clone, Copy, Debug, PartialEq, Eq, Structural)]
pub enum MarketKind {
    OPTIONS,
    FUTURES,
}

/// The model of a registered pair: its reference price and the orders resting
/// on it, oldest first.
pub struct PairView {
    pub price: u128,
    pub orders: Seq<OrderView>,
}

/// The model of a market: its pairs by their keys.
pub type MarketView = Map<CoinPair, PairView>;

/// The keys that arrays of coin names stand for, one by one.
pub open spec fn keys_of(coins: Seq<[String; 2]>) -> Seq<CoinPair> {
    coins.map_values(|c: [String; 2]| pair_key(&c))
}

/// The pairs after one with `price` and no orders has been registered under
/// `key`. A pair that was registered under `key` before is gone, with its
/// orders.
pub open spec fn registered(pairs: MarketView, key: CoinPair, price: u128) -> MarketView {
    pairs.insert(key, PairView { price, orders: Seq::empty() })
}

/// What comes of asking a market of `kind` with `pairs` to create `order`.
///
/// An order of another kind is refused; so is one on a pair that is not
/// registered. Otherwise the order goes behind the orders of its pair, and no
/// other pair changes.
pub open spec fn admitted(kind: MarketKind, pairs: MarketView, order: OrderView) -> Result<
    MarketView,
    EngineError,
> {
    if order.kind() != kind {
        Err(EngineError::InvalidRequestKind)
    } else if !pairs.contains_key(order.coins()) {
        Err(EngineError::PairNotFound)
    } else {
        let pair = pairs[order.coins()];
        Ok(pairs.insert(order.coins(), PairView { price: pair.price, orders: pair.orders.push(order) }))
    }
}

/// A market: the pairs of one kind of instrument, each with its orders.
pub trait Market {
    /// The kind of instrument that the market trades. It never changes.
    spec fn kind(&self) -> MarketKind;

    /// The registered pairs, by their keys.
    spec fn pairs(&self) -> MarketView;

    /// The kind of instrument that the market trades.
    fn get_kind(&self) -> (kind: MarketKind)
        ensures
            kind == self.kind(),
    ;

    /// Registers the pair of `coins` with `initial_price` and no orders. A pair
    /// that was registered under the same coins is replaced.
    fn add_pair(&mut self, coins: &[String; 2], initial_price: u128)
        ensures
            final(self).kind() == old(self).kind(),
            final(self).pairs() == registered(old(self).pairs(), pair_key(coins), initial_price),
    ;

    /// The coins of every registered pair, each pair once.
    fn get_pairs(&self) -> (keys: Vec<[String; 2]>)
        ensures
            keys_of(keys@).no_duplicates(),
            keys_of(keys@).to_set() == self.pairs().dom(),
    ;

    /// The reference price of the pair of `coins`, if the pair is registered.
    fn get_reference_price(&self, coins: &[String; 2]) -> (price: Option<u128>)
        ensures
            price == (if self.pairs().contains_key(pair_key(coins)) {
                Some(self.pairs()[pair_key(coins)].price)
            } else {
                None
            }),
    ;

    /// Creates the order that `order_request` asks for, if the request is of
    /// the market's kind and its pair is registered. A refused request changes
    /// nothing.
    fn create_order<R: OrderRequest>(&mut self, order_request: R) -> (result: Result<
        (),
        EngineError,
    >)
        ensures
            final(self).kind() == old(self).kind(),
            match admitted(old(self).kind(), old(self).pairs(), order_request.opened()) {
                Ok(pairs) => result is Ok && final(self).pairs() == pairs,
                Err(e) => result == Err::<(), EngineError>(e) && final(self).pairs() == old(
                    self,
                ).pairs(),
            },
    ;

    /// The orders resting on the pair of `coins`, oldest first, if the pair is
    /// registered. Each of them trades that pair and is of the market's kind.
    fn get_orders(&self, coins: &[String; 2]) -> (orders: Option<&Vec<AnyOrder>>)
        ensures
            match orders {
                Some(orders) => {
                    &&& self.pairs().contains_key(pair_key(coins))
                    &&& order_views(orders@) == self.pairs()[pair_key(coins)].orders
                    &&& forall|i: int|
                        0 <= i < orders.len() ==> (#[trigger] orders[i])@.coins() == pair_key(coins)
                            && orders[i]@.kind() == self.kind()
                },
                None => !self.pairs().contains_key(pair_key(coins)),
            },
    ;
}

/// A market of options.
#[derive(Debug)]
pub struct OptionsMarket {
    pairs: Vec<Pair>,
}

impl OptionsMarket {
    #[verifier::type_invariant]
    spec fn well_formed(self) -> bool {
        keys_distinct(self.pairs@) && orders_belong(self.pairs@, MarketKind::OPTIONS)
    }

    /// A market of options with no pairs.
    pub fn new() -> (market: Self)
        ensures
            market.kind() == MarketKind::OPTIONS,
            market.pairs() == Map::<CoinPair, PairView>::empty(),
    {
        let market = OptionsMarket { pairs: Vec::new() };
        assert(market.pairs() =~= Map::<CoinPair, PairView>::empty());
        market
    }
}

impl Default for OptionsMarket {
    fn default() -> (market: Self)
        ensures
            market.kind() == MarketKind::OPTIONS,
            market.pairs() == Map::<CoinPair, PairView>::empty(),
    {
        OptionsMarket::new()
    }
}

impl Market for OptionsMarket {
    open spec fn kind(&self) -> MarketKind {
        MarketKind::OPTIONS
    }

    closed spec fn pairs(&self) -> MarketView {
        listing(self.pairs@)
    }

    fn get_kind(&self) -> (kind: MarketKind) {
        MarketKind::OPTIONS
    }

    fn add_pair(&mut self, coins: &[String; 2], initial_price: u128) {
        proof {
            use_type_invariant(&*self);
        }
        let mut pairs: Vec<Pair> = Vec::new();
        core::mem::swap(&mut pairs, &mut self.pairs);
        register_pair(&mut pairs, coins, initial_price);
        self.pairs = pairs;
    }

    fn get_pairs(&self) -> (keys: Vec<[String; 2]>) {
        proof {
            use_type_invariant(self);
        }
        pair_keys(&self.pairs)
    }

    fn get_reference_price(&self, coins: &[String; 2]) -> (price: Option<u128>) {
        proof {
            use_type_invariant(self);
        }
        match find_pair(&self.pairs, coins) {
            Some(i) => {
                proof {
                    lemma_listing_at(self.pairs@, i as int);
                }
                Some(self.pairs[i].price)
            },
            None => None,
        }
    }

    fn create_order<R: OrderRequest>(&mut self, order_request: R) -> (result: Result<
        (),
        EngineError,
    >) {
        proof {
            use_type_invariant(&*self);
        }
        if let Some(request) = order_request.as_options() {
            let mut pairs: Vec<Pair> = Vec::new();
            core::mem::swap(&mut pairs, &mut self.pairs);
            let result = match find_pair(&pairs, &request.coins) {
                Some(i) => {
                    proof {
                        lemma_listing_at(pairs@, i as int);
                    }
                    append_order(&mut pairs, i, AnyOrder::Options(OptionsOrder::new(request)));
                    Ok(())
                },
                None => Err(EngineError::PairNotFound),
            };
            self.pairs = pairs;
            result
        } else {
            Err(EngineError::InvalidRequestKind)
        }
    }

    fn get_orders(&self, coins: &[String; 2]) -> (orders: Option<&Vec<AnyOrder>>) {
        proof {
            use_type_invariant(self);
        }
        match find_pair(&self.pairs, coins) {
            Some(i) => {
                proof {
                    lemma_listing_at(self.pairs@, i as int);
                }
                Some(&self.pairs[i].orders)
            },
            None => None,
        }
    }
}

/// A market of futures.
#[derive(Debug)]
pub struct FuturesMarket {
    pairs: Vec<Pair>,
}

impl FuturesMarket {
    #[verifier::type_invariant]
    spec fn well_formed(self) -> bool {
        keys_distinct(self.pairs@) && orders_belong(self.pairs@, MarketKind::FUTURES)
    }

    /// A market of futures with no pairs.
    pub fn new() -> (market: Self)
        ensures
            market.kind() == MarketKind::FUTURES,
            market.pairs() == Map::<CoinPair, PairView>::empty(),
    {
        let market = FuturesMarket { pairs: Vec::new() };
        assert(market.pairs() =~= Map::<CoinPair, PairView>::empty());
        market
    }
}

impl Default for FuturesMarket {
    fn default() -> (market: Self)
        ensures
            market.kind() == MarketKind::FUTURES,
            market.pairs() == Map::<CoinPair, PairView>::empty(),
    {
        FuturesMarket::new()
    }
}

impl Market for FuturesMarket {
    open spec fn kind(&self) -> MarketKind {
        MarketKind::FUTURES
    }

    closed spec fn pairs(&self) -> MarketView {
        listing(self.pairs@)
    }

    fn get_kind(&self) -> (kind: MarketKind) {
        MarketKind::FUTURES
    }

    fn add_pair(&mut self, coins: &[String; 2], initial_price: u128) {
        proof {
            use_type_invariant(&*self);
        }
        let mut pairs: Vec<Pair> = Vec::new();
        core::mem::swap(&mut pairs, &mut self.pairs);
        register_pair(&mut pairs, coins, initial_price);
        self.pairs = pairs;
    }

    fn get_pairs(&self) -> (keys: Vec<[String; 2]>) {
        proof {
            use_type_invariant(self);
        }
        pair_keys(&self.pairs)
    }

    fn get_reference_price(&self, coins: &[String; 2]) -> (price: Option<u128>) {
        proof {
            use_type_invariant(self);
        }
        match find_pair(&self.pairs, coins) {
            Some(i) => {
                proof {
                    lemma_listing_at(self.pairs@, i as int);
                }
                Some(self.pairs[i].price)
            },
            None => None,
        }
    }

    fn create_order<R: OrderRequest>(&mut self, order_request: R) -> (result: Result<
        (),
        EngineError,
    >) {
        proof {
            use_type_invariant(&*self);
        }
        if let Some(request) = order_request.as_futures() {
            let mut pairs: Vec<Pair> = Vec::new();
            core::mem::swap(&mut pairs, &mut self.pairs);
            let result = match find_pair(&pairs, &request.coins) {
                Some(i) => {
                    proof {
                        lemma_listing_at(pairs@, i as int);
                    }
                    append_order(&mut pairs, i, AnyOrder::Futures(FuturesOrder::new(request)));
                    Ok(())
                },
                None => Err(EngineError::PairNotFound),
            };
            self.pairs = pairs;
            result
        } else {
            Err(EngineError::InvalidRequestKind)
        }
    }

    fn get_orders(&self, coins: &[String; 2]) -> (orders: Option<&Vec<AnyOrder>>) {
        proof {
            use_type_invariant(self);
        }
        match find_pair(&self.pairs, coins) {
            Some(i) => {
                proof {
                    lemma_listing_at(self.pairs@, i as int);
                }
                Some(&self.pairs[i].orders)
            },
            None => None,
        }
    }
}

/// The market of an engine: one of options or one of futures.
#[derive(Debug)]
pub enum AnyMarket {
    Options(OptionsMarket),
    Futures(FuturesMarket),
}

impl AnyMarket {
    /// A market of `kind` with no pairs.
    pub fn new(kind: MarketKind) -> (market: Self)
        ensures
            market.kind() == kind,
            market.pairs() == Map::<CoinPair, PairView>::empty(),
    {
        match kind {
            MarketKind::FUTURES => AnyMarket::Futures(FuturesMarket::default()),
            MarketKind::OPTIONS => AnyMarket::Options(OptionsMarket::default()),
        }
    }
}

impl Market for AnyMarket {
    open spec fn kind(&self) -> MarketKind {
        match self {
            AnyMarket::Options(m) => m.kind(),
            AnyMarket::Futures(m) => m.kind(),
        }
    }

    open spec fn pairs(&self) -> MarketView {
        match self {
            AnyMarket::Options(m) => m.pairs(),
            AnyMarket::Futures(m) => m.pairs(),
        }
    }

    fn get_kind(&self) -> (kind: MarketKind) {
        match self {
            AnyMarket::Options(m) => m.get_kind(),
            AnyMarket::Futures(m) => m.get_kind(),
        }
    }

    fn add_pair(&mut self, coins: &[String; 2], initial_price: u128) {
        match self {
            AnyMarket::Options(m) => m.add_pair(coins, initial_price),
            AnyMarket::Futures(m) => m.add_pair(coins, initial_price),
        }
    }

    fn get_pairs(&self) -> (keys: Vec<[String; 2]>) {
        match self {
            AnyMarket::Options(m) => m.get_pairs(),
            AnyMarket::Futures(m) => m.get_pairs(),
        }
    }

    fn get_reference_price(&self, coins: &[String; 2]) -> (price: Option<u128>) {
        match self {
            AnyMarket::Options(m) => m.get_reference_price(coins),
            AnyMarket::Futures(m) => m.get_reference_price(coins),
        }
    }

    fn create_order<R: OrderRequest>(&mut self, order_request: R) -> (result: Result<
        (),
        EngineError,
    >) {
        match self {
            AnyMarket::Options(m) => m.create_order(order_request),
            AnyMarket::Futures(m) => m.create_order(order_request),
        }
    }

    fn get_orders(&self, coins: &[String; 2]) -> (orders: Option<&Vec<AnyOrder>>) {
        match self {
            AnyMarket::Options(m) => m.get_orders(coins),
            AnyMarket::Futures(m) => m.get_orders(coins),
        }
    }
}

} // verus!
