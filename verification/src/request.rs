//! Requests to create an order. A request is checked and turned into an order
//! by the market that receives it.

use vstd::prelude::*;
use crate::coins::{copy_pair, pair_key};
use crate::market::MarketKind;
use crate::order::{FuturesOrderView, FuturesSide, OptionSide, OptionsOrderView, OrderView};

verus! {

/// A request to create an options order.
#[derive(Debug)]
pub struct OptionsOrderRequest {
    /// Who submits the request, and will be the order's writer.
    pub user: String,
    pub coins: [String; 2],
    pub side: OptionSide,
    pub strike_price: u128,
    pub premium: u128,
    pub expiry: u128,
}

/// A request to create a futures order.
#[derive(Debug)]
pub struct FuturesOrderRequest {
    /// Who submits the request, and will be the order's writer.
    pub user: String,
    pub coins: [String; 2],
    pub side: FuturesSide,
    pub price: u128,
    pub expiry: u128,
}

/// A request to create an order, of whatever kind. The kind of a request is
/// the kind of the order that it asks for; a market admits the requests of its
/// own kind only.
pub trait OrderRequest {
    /// The order that the request asks for, as it is when created: written by
    /// the submitter, with the terms of the request, and filled by nobody.
    spec fn opened(&self) -> OrderView;

    /// The request itself if it is for an options order.
    fn as_options(&self) -> (request: Option<&OptionsOrderRequest>)
        ensures
            match request {
                Some(r) => r.order() == self.opened(),
                None => self.opened().kind() != MarketKind::OPTIONS,
            },
    ;

    /// The request itself if it is for a futures order.
    fn as_futures(&self) -> (request: Option<&FuturesOrderRequest>)
        ensures
            match request {
                Some(r) => r.order() == self.opened(),
                None => self.opened().kind() != MarketKind::FUTURES,
            },
    ;
}

impl OptionsOrderRequest {
    /// The options order that the request asks for: written by the submitter,
    /// with the terms of the request, and filled by nobody.
    pub open spec fn order(&self) -> OrderView {
        OrderView::Options(
            OptionsOrderView {
                coins: pair_key(&self.coins),
                strike_price: self.strike_price,
                premium: self.premium,
                writer: self.user@,
                buyer: Seq::empty(),
                side: self.side,
                expiry: self.expiry,
                quantity: 0,
            },
        )
    }
}

impl FuturesOrderRequest {
    /// The futures order that the request asks for: written by the submitter,
    /// with the terms of the request, and filled by nobody.
    pub open spec fn order(&self) -> OrderView {
        OrderView::Futures(
            FuturesOrderView {
                coins: pair_key(&self.coins),
                price: self.price,
                writer: self.user@,
                buyer: Seq::empty(),
                side: self.side,
                expiry: self.expiry,
                quantity: 0,
            },
        )
    }
}

impl OrderRequest for OptionsOrderRequest {
    open spec fn opened(&self) -> OrderView {
        self.order()
    }

    fn as_options(&self) -> (request: Option<&OptionsOrderRequest>) {
        Some(self)
    }

    fn as_futures(&self) -> (request: Option<&FuturesOrderRequest>) {
        None
    }
}

impl OrderRequest for FuturesOrderRequest {
    open spec fn opened(&self) -> OrderView {
        self.order()
    }

    fn as_options(&self) -> (request: Option<&OptionsOrderRequest>) {
        None
    }

    fn as_futures(&self) -> (request: Option<&FuturesOrderRequest>) {
        Some(self)
    }
}

/// A boxed request is the request in the box.
impl<R: OrderRequest> OrderRequest for Box<R> {
    open spec fn opened(&self) -> OrderView {
        (**self).opened()
    }

    fn as_options(&self) -> (request: Option<&OptionsOrderRequest>) {
        (**self).as_options()
    }

    fn as_futures(&self) -> (request: Option<&FuturesOrderRequest>) {
        (**self).as_futures()
    }
}

impl Clone for OptionsOrderRequest {
    fn clone(&self) -> (copy: Self)
        ensures
            copy.order() == self.order(),
    {
        OptionsOrderRequest {
            user: self.user.clone(),
            coins: copy_pair(&self.coins),
            side: self.side,
            strike_price: self.strike_price,
            premium: self.premium,
            expiry: self.expiry,
        }
    }
}

impl Clone for FuturesOrderRequest {
    fn clone(&self) -> (copy: Self)
        ensures
            copy.order() == self.order(),
    {
        FuturesOrderRequest {
            user: self.user.clone(),
            coins: copy_pair(&self.coins),
            side: self.side,
            price: self.price,
            expiry: self.expiry,
        }
    }
}

} // verus!
