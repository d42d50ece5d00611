//! A minimal exchange core.
//!
//! A [`TradingEngine`] owns one market, of options or of futures, and the
//! balance ledger of its users. The market keeps the tradable coin pairs and
//! the orders resting on each of them; the engine settles a fill by moving the
//! payment from the taker to the order's writer.
//!
//! Every function is verified against a mathematical model. A coin pair is a
//! pair of character sequences, an order is an [`order::OrderView`], a market
//! is a map from coin pairs to [`market::PairView`]s, and the ledger is a map
//! from users to maps from coins to amounts. What each operation does to the
//! model is a function of the model: [`market::registered`],
//! [`market::admitted`], [`ledger::credited`], [`ledger::debited`] and
//! [`engine::fulfilled`]. The module [`laws`] proves what follows from them.

pub mod coins;
pub mod engine;
pub mod error;
pub mod laws;
pub mod ledger;
mod listing;
pub mod market;
pub mod order;
pub mod request;

pub use coins::{copy_pair, same_pair};
pub use engine::TradingEngine;
pub use error::EngineError;
pub use ledger::Ledger;
pub use market::{AnyMarket, FuturesMarket, Market, MarketKind, OptionsMarket};
pub use order::{AnyOrder, FuturesOrder, FuturesSide, OptionSide, OptionsOrder, Order};
pub use request::{FuturesOrderRequest, OptionsOrderRequest, OrderRequest};
