//! Resting orders, of options and of futures, and what they have in common.

use vstd::prelude::*;
use crate::coins::{copy_pair, pair_key, CoinPair};
use crate::market::MarketKind;
use crate::request::{FuturesOrderRequest, OptionsOrderRequest};

verus! {

/// The side of an options order.
#[derive(Clone, Copy, Debug, PartialEq, Eq, Structural)]
pub enum OptionSide {
    PUT,
    CALL,
}

/// The side of a futures order.
#[derive(Clone, Copy, Debug, PartialEq, Eq, Structural)]
pub enum FuturesSide {
    BID,
    ASK,
}

/// What an options order holds, with names as character sequences.
pub struct OptionsOrderView {
    pub coins: CoinPair,
    pub strike_price: u128,
    pub premium: u128,
    pub writer: Seq<char>,
    pub buyer: Seq<char>,
    pub side: OptionSide,
    pub expiry: u128,
    pub quantity: u128,
}

/// What a futures order holds, with names as character sequences.
pub struct FuturesOrderView {
    pub coins: CoinPair,
    pub price: u128,
    pub writer: Seq<char>,
    pub buyer: Seq<char>,
    pub side: FuturesSide,
    pub expiry: u128,
    pub quantity: u128,
}

/// The model of an order: its kind and what it holds.
pub enum OrderView {
    Options(OptionsOrderView),
    Futures(FuturesOrderView),
}

impl OrderView {
    /// The kind of market on which the order can rest.
    pub open spec fn kind(self) -> MarketKind {
        match self {
            OrderView::Options(_) => MarketKind::OPTIONS,
            OrderView::Futures(_) => MarketKind::FUTURES,
        }
    }

    /// The pair that the order trades.
    pub open spec fn coins(self) -> CoinPair {
        match self {
            OrderView::Options(o) => o.coins,
            OrderView::Futures(o) => o.coins,
        }
    }

    /// What a taker pays per unit: the premium of an option, the price of a
    /// future.
    pub open spec fn price_term(self) -> u128 {
        match self {
            OrderView::Options(o) => o.premium,
            OrderView::Futures(o) => o.price,
        }
    }

    /// Who wrote the order.
    pub open spec fn writer(self) -> Seq<char> {
        match self {
            OrderView::Options(o) => o.writer,
            OrderView::Futures(o) => o.writer,
        }
    }

    /// Who filled the order last; empty while nobody has.
    pub open spec fn counterparty(self) -> Seq<char> {
        match self {
            OrderView::Options(o) => o.buyer,
            OrderView::Futures(o) => o.buyer,
        }
    }

    /// The quantity filled so far.
    pub open spec fn filled(self) -> u128 {
        match self {
            OrderView::Options(o) => o.quantity,
            OrderView::Futures(o) => o.quantity,
        }
    }

    /// Whether the order is as it was created: nobody has filled any of it.
    pub open spec fn is_fresh(self) -> bool {
        self.counterparty() == Seq::<char>::empty() && self.filled() == 0
    }

    /// The order after `buyer` has filled `quantity` more of it: `buyer` is
    /// the counterparty, the filled quantity has grown by `quantity`, and
    /// everything else is as before. Meant for `self.filled() + quantity`
    /// within 128 bits.
    pub open spec fn fill(self, buyer: Seq<char>, quantity: u128) -> OrderView {
        match self {
            OrderView::Options(o) => OrderView::Options(
                OptionsOrderView { buyer, quantity: (o.quantity + quantity) as u128, ..o },
            ),
            OrderView::Futures(o) => OrderView::Futures(
                FuturesOrderView { buyer, quantity: (o.quantity + quantity) as u128, ..o },
            ),
        }
    }
}

/// The models of a sequence of orders, one by one.
pub open spec fn order_views(orders: Seq<AnyOrder>) -> Seq<OrderView> {
    orders.map_values(|o: AnyOrder| o@)
}

/// An order resting in a market, of whatever kind.
pub trait Order: View<V = OrderView> {
    /// Records that `buyer` has filled `quantity` more of the order.
    fn fulfill(&mut self, buyer: String, quantity: u128)
        requires
            old(self)@.filled() + quantity <= u128::MAX,
        ensures
            final(self)@ == old(self)@.fill(buyer@, quantity),
    ;

    /// The two coins of the pair that the order trades.
    fn get_coins(&self) -> (coins: &[String; 2])
        ensures
            pair_key(coins) == self@.coins(),
    ;

    /// What a taker pays per unit.
    fn get_price(&self) -> (price: u128)
        ensures
            price == self@.price_term(),
    ;

    /// Who wrote the order.
    fn get_writer(&self) -> (writer: &str)
        ensures
            writer@ == self@.writer(),
    ;

    /// Who filled the order last; empty while nobody has.
    fn get_buyer(&self) -> (buyer: &str)
        ensures
            buyer@ == self@.counterparty(),
    ;

    /// The quantity filled so far.
    fn get_quantity(&self) -> (quantity: u128)
        ensures
            quantity == self@.filled(),
    ;
}

/// An order on an option: the writer sells, for a premium, the right to trade
/// the pair at the strike price.
#[derive(Debug)]
pub struct OptionsOrder {
    coins: [String; 2],
    strike_price: u128,
    premium: u128,
    writer: String,
    buyer: String,
    side: OptionSide,
    expiry: u128,
    quantity: u128,
}

impl View for OptionsOrder {
    type V = OrderView;

    open spec fn view(&self) -> OrderView {
        OrderView::Options(self.terms())
    }
}

impl OptionsOrder {
    /// What the order holds.
    pub closed spec fn terms(&self) -> OptionsOrderView {
        OptionsOrderView {
            coins: pair_key(&self.coins),
            strike_price: self.strike_price,
            premium: self.premium,
            writer: self.writer@,
            buyer: self.buyer@,
            side: self.side,
            expiry: self.expiry,
            quantity: self.quantity,
        }
    }

    /// The price at which the option lets its holder trade.
    pub fn get_strike_price(&self) -> (strike_price: u128)
        ensures
            strike_price == self.terms().strike_price,
    {
        self.strike_price
    }

    /// Whether the option is a put or a call.
    pub fn get_side(&self) -> (side: OptionSide)
        ensures
            side == self.terms().side,
    {
        self.side
    }

    /// When the option expires.
    pub fn get_expiry(&self) -> (expiry: u128)
        ensures
            expiry == self.terms().expiry,
    {
        self.expiry
    }

    /// The order that `request` asks for: written by the submitter, with the
    /// terms of the request, and filled by nobody.
    pub fn new(request: &OptionsOrderRequest) -> (order: Self)
        ensures
            order@ == request.order(),
    {
        OptionsOrder {
            coins: copy_pair(&request.coins),
            strike_price: request.strike_price,
            premium: request.premium,
            writer: request.user.clone(),
            buyer: String::new(),
            side: request.side,
            expiry: request.expiry,
            quantity: 0,
        }
    }
}

impl Clone for OptionsOrder {
    fn clone(&self) -> (copy: Self)
        ensures
            copy@ == self@,
    {
        OptionsOrder {
            coins: copy_pair(&self.coins),
            strike_price: self.strike_price,
            premium: self.premium,
            writer: self.writer.clone(),
            buyer: self.buyer.clone(),
            side: self.side,
            expiry: self.expiry,
            quantity: self.quantity,
        }
    }
}

impl Order for OptionsOrder {
    fn fulfill(&mut self, buyer: String, quantity: u128) {
        self.buyer = buyer;
        self.quantity = self.quantity + quantity;
    }

    fn get_coins(&self) -> (coins: &[String; 2]) {
        &self.coins
    }

    fn get_price(&self) -> (price: u128) {
        self.premium
    }

    fn get_writer(&self) -> (writer: &str) {
        self.writer.as_str()
    }

    fn get_buyer(&self) -> (buyer: &str) {
        self.buyer.as_str()
    }

    fn get_quantity(&self) -> (quantity: u128) {
        self.quantity
    }
}

/// An order on a future: the writer commits to trade the pair at the price.
#[derive(Debug)]
pub struct FuturesOrder {
    coins: [String; 2],
    price: u128,
    writer: String,
    buyer: String,
    side: FuturesSide,
    expiry: u128,
    quantity: u128,
}

impl View for FuturesOrder {
    type V = OrderView;

    open spec fn view(&self) -> OrderView {
        OrderView::Futures(self.terms())
    }
}

impl FuturesOrder {
    /// What the order holds.
    pub closed spec fn terms(&self) -> FuturesOrderView {
        FuturesOrderView {
            coins: pair_key(&self.coins),
            price: self.price,
            writer: self.writer@,
            buyer: self.buyer@,
            side: self.side,
            expiry: self.expiry,
            quantity: self.quantity,
        }
    }

    /// Whether the order bids or asks.
    pub fn get_side(&self) -> (side: FuturesSide)
        ensures
            side == self.terms().side,
    {
        self.side
    }

    /// When the future expires.
    pub fn get_expiry(&self) -> (expiry: u128)
        ensures
            expiry == self.terms().expiry,
    {
        self.expiry
    }

    /// The order that `request` asks for: written by the submitter, with the
    /// terms of the request, and filled by nobody.
    pub fn new(request: &FuturesOrderRequest) -> (order: Self)
        ensures
            order@ == request.order(),
    {
        FuturesOrder {
            coins: copy_pair(&request.coins),
            price: request.price,
            writer: request.user.clone(),
            buyer: String::new(),
            side: request.side,
            expiry: request.expiry,
            quantity: 0,
        }
    }
}

impl Clone for FuturesOrder {
    fn clone(&self) -> (copy: Self)
        ensures
            copy@ == self@,
    {
        FuturesOrder {
            coins: copy_pair(&self.coins),
            price: self.price,
            writer: self.writer.clone(),
            buyer: self.buyer.clone(),
            side: self.side,
            expiry: self.expiry,
            quantity: self.quantity,
        }
    }
}

impl Order for FuturesOrder {
    fn fulfill(&mut self, buyer: String, quantity: u128) {
        self.buyer = buyer;
        self.quantity = self.quantity + quantity;
    }

    fn get_coins(&self) -> (coins: &[String; 2]) {
        &self.coins
    }

    fn get_price(&self) -> (price: u128) {
        self.price
    }

    fn get_writer(&self) -> (writer: &str) {
        self.writer.as_str()
    }

    fn get_buyer(&self) -> (buyer: &str) {
        self.buyer.as_str()
    }

    fn get_quantity(&self) -> (quantity: u128) {
        self.quantity
    }
}

/// An order of either kind, as a market stores it and hands it out.
#[derive(Debug)]
pub enum AnyOrder {
    Options(OptionsOrder),
    Futures(FuturesOrder),
}

impl View for AnyOrder {
    type V = OrderView;

    open spec fn view(&self) -> OrderView {
        match self {
            AnyOrder::Options(o) => o@,
            AnyOrder::Futures(o) => o@,
        }
    }
}

impl Clone for AnyOrder {
    fn clone(&self) -> (copy: Self)
        ensures
            copy@ == self@,
    {
        match self {
            AnyOrder::Options(o) => AnyOrder::Options(o.clone()),
            AnyOrder::Futures(o) => AnyOrder::Futures(o.clone()),
        }
    }
}

impl Order for AnyOrder {
    fn fulfill(&mut self, buyer: String, quantity: u128) {
        match self {
            AnyOrder::Options(o) => o.fulfill(buyer, quantity),
            AnyOrder::Futures(o) => o.fulfill(buyer, quantity),
        }
    }

    fn get_coins(&self) -> (coins: &[String; 2]) {
        match self {
            AnyOrder::Options(o) => o.get_coins(),
            AnyOrder::Futures(o) => o.get_coins(),
        }
    }

    fn get_price(&self) -> (price: u128) {
        match self {
            AnyOrder::Options(o) => o.get_price(),
            AnyOrder::Futures(o) => o.get_price(),
        }
    }

    fn get_writer(&self) -> (writer: &str) {
        match self {
            AnyOrder::Options(o) => o.get_writer(),
            AnyOrder::Futures(o) => o.get_writer(),
        }
    }

    fn get_buyer(&self) -> (buyer: &str) {
        match self {
            AnyOrder::Options(o) => o.get_buyer(),
            AnyOrder::Futures(o) => o.get_buyer(),
        }
    }

    fn get_quantity(&self) -> (quantity: u128) {
        match self {
            AnyOrder::Options(o) => o.get_quantity(),
            AnyOrder::Futures(o) => o.get_quantity(),
        }
    }
}

} // verus!
