//! What holds of the model, whatever the state: the laws that the engine's
//! operations obey. Each is proved from the definitions that the contracts of
//! the operations use.

use vstd::prelude::*;
use crate::coins::{pair_key, quote_coin, CoinPair};
use crate::engine::{fulfilled, payment_due};
use crate::error::EngineError;
use crate::ledger::{balance, credited, debited, with_balance, LedgerView};
use crate::market::{admitted, registered, MarketKind, MarketView, PairView};
use crate::order::OrderView;
use crate::request::{FuturesOrderRequest, OptionsOrderRequest};

verus! {

/// A fill between two different users moves the payment, and no more: the
/// writer's balance in the quote coin grows by quantity times price, the
/// taker's shrinks by as much, and the two together hold what they held.
pub proof fn lemma_fill_conserves_balances(
    ledger: LedgerView,
    order: OrderView,
    taker: Seq<char>,
    quantity: u128,
)
    requires
        fulfilled(ledger, order, taker, quantity) is Ok,
        taker != order.writer(),
    ensures
        ({
            let after = fulfilled(ledger, order, taker, quantity)->Ok_0.0;
            let coin = quote_coin(order.coins());
            let writer = order.writer();
            &&& balance(after, writer, coin) == balance(ledger, writer, coin) + quantity
                * order.price_term()
            &&& balance(after, taker, coin) == balance(ledger, taker, coin) - quantity
                * order.price_term()
            &&& balance(after, writer, coin) + balance(after, taker, coin) == balance(
                ledger,
                writer,
                coin,
            ) + balance(ledger, taker, coin)
        }),
{
}

/// A user who fills an order of their own pays themselves: no balance
/// changes.
pub proof fn lemma_self_fill_keeps_balances(
    ledger: LedgerView,
    order: OrderView,
    quantity: u128,
)
    requires
        fulfilled(ledger, order, order.writer(), quantity) is Ok,
    ensures
        fulfilled(ledger, order, order.writer(), quantity)->Ok_0.0 == ledger,
{
    let after = fulfilled(ledger, order, order.writer(), quantity)->Ok_0.0;
    let user = order.writer();
    assert(after[user] =~= ledger[user]);
    assert(after =~= ledger);
}

/// A fill changes no balance but those of the taker and of the writer in the
/// quote coin.
pub proof fn lemma_fill_spares_other_balances(
    ledger: LedgerView,
    order: OrderView,
    taker: Seq<char>,
    quantity: u128,
    user: Seq<char>,
    coin: Seq<char>,
)
    requires
        fulfilled(ledger, order, taker, quantity) is Ok,
        coin != quote_coin(order.coins()) || (user != taker && user != order.writer()),
    ensures
        balance(fulfilled(ledger, order, taker, quantity)->Ok_0.0, user, coin) == balance(
            ledger,
            user,
            coin,
        ),
{
}

/// A fill records itself on the order: the taker is the counterparty, the
/// filled quantity has grown by the quantity of the fill, and the order's
/// kind, pair, price term and writer are what they were.
pub proof fn lemma_fill_marks_order(
    ledger: LedgerView,
    order: OrderView,
    taker: Seq<char>,
    quantity: u128,
)
    requires
        fulfilled(ledger, order, taker, quantity) is Ok,
    ensures
        ({
            let filled = fulfilled(ledger, order, taker, quantity)->Ok_0.1;
            &&& filled.counterparty() == taker
            &&& filled.filled() == order.filled() + quantity
            &&& filled.kind() == order.kind()
            &&& filled.coins() == order.coins()
            &&& filled.price_term() == order.price_term()
            &&& filled.writer() == order.writer()
        }),
{
}

/// Setting one balance sets that balance and no other.
pub proof fn lemma_one_balance_set(
    ledger: LedgerView,
    user: Seq<char>,
    coin: Seq<char>,
    amount: u128,
    other_user: Seq<char>,
    other_coin: Seq<char>,
)
    ensures
        balance(with_balance(ledger, user, coin, amount), user, coin) == amount,
        other_user != user || other_coin != coin ==> balance(
            with_balance(ledger, user, coin, amount),
            other_user,
            other_coin,
        ) == balance(ledger, other_user, other_coin),
{
}

/// No balance goes below zero: taking more than a user holds of a coin is
/// refused, in every state of the ledger, and taking what the user holds or
/// less leaves the rest.
pub proof fn lemma_debit_never_overdraws(
    ledger: LedgerView,
    user: Seq<char>,
    coin: Seq<char>,
    amount: u128,
)
    ensures
        amount > balance(ledger, user, coin) ==> debited(ledger, user, coin, amount) is Err,
        ledger.contains_key(user) && ledger[user].contains_key(coin) && amount > ledger[user][coin]
            ==> debited(ledger, user, coin, amount) == Err::<LedgerView, EngineError>(
            EngineError::InsufficientBalance,
        ),
        debited(ledger, user, coin, amount) matches Ok(after) ==> balance(after, user, coin)
            == balance(ledger, user, coin) - amount,
{
}

/// One addition to, or subtraction from, a balance of the ledger.
pub enum LedgerOp {
    Add { user: Seq<char>, coin: Seq<char>, amount: u128 },
    Subtract { user: Seq<char>, coin: Seq<char>, amount: u128 },
}

/// The ledger after `op` was tried on it: changed as the operation says, or
/// unchanged where the operation is refused.
pub open spec fn applied(ledger: LedgerView, op: LedgerOp) -> LedgerView {
    match op {
        LedgerOp::Add { user, coin, amount } => match credited(ledger, user, coin, amount) {
            Ok(after) => after,
            Err(_) => ledger,
        },
        LedgerOp::Subtract { user, coin, amount } => match debited(ledger, user, coin, amount) {
            Ok(after) => after,
            Err(_) => ledger,
        },
    }
}

/// The ledger after each of `ops` was tried on it, in turn.
pub open spec fn replayed(ledger: LedgerView, ops: Seq<LedgerOp>) -> LedgerView
    decreases ops.len(),
{
    if ops.len() == 0 {
        ledger
    } else {
        applied(replayed(ledger, ops.drop_last()), ops.last())
    }
}

/// Whatever additions and subtractions came before, a subtraction of more
/// than the balance then held is refused and leaves every balance as it was.
pub proof fn lemma_overdraft_refused_after_any_history(
    history: Seq<LedgerOp>,
    user: Seq<char>,
    coin: Seq<char>,
    amount: u128,
)
    requires
        amount > balance(replayed(Map::empty(), history), user, coin),
    ensures
        debited(replayed(Map::empty(), history), user, coin, amount) is Err,
        replayed(Map::empty(), history.push(LedgerOp::Subtract { user, coin, amount })) == replayed(
            Map::empty(),
            history,
        ),
{
    let ops = history.push(LedgerOp::Subtract { user, coin, amount });
    assert(ops.drop_last() =~= history);
}

/// An addition overflows exactly when the balance and the amount together
/// exceed 128 bits; otherwise the balance grows by the amount.
pub proof fn lemma_credit_overflows_exactly(
    ledger: LedgerView,
    user: Seq<char>,
    coin: Seq<char>,
    amount: u128,
)
    ensures
        balance(ledger, user, coin) + amount > u128::MAX <==> credited(ledger, user, coin, amount)
            == Err::<LedgerView, EngineError>(EngineError::ArithmeticOverflow),
        balance(ledger, user, coin) + amount <= u128::MAX <==> credited(ledger, user, coin, amount)
            is Ok,
        credited(ledger, user, coin, amount) matches Ok(after) ==> balance(after, user, coin)
            == balance(ledger, user, coin) + amount,
{
}

/// A fill whose payment, quantity times price, exceeds 128 bits is refused
/// as an overflow, whatever the ledger holds.
pub proof fn lemma_payment_overflow_refused(
    ledger: LedgerView,
    order: OrderView,
    taker: Seq<char>,
    quantity: u128,
)
    requires
        quantity * order.price_term() > u128::MAX,
    ensures
        fulfilled(ledger, order, taker, quantity) == Err::<(LedgerView, OrderView), EngineError>(
            EngineError::ArithmeticOverflow,
        ),
{
}

/// Registering a pair puts a pair without orders under its key, at the given
/// price, in place of what was there; every other pair stays as it was, and
/// no key is lost.
pub proof fn lemma_registration_replaces_one_pair(
    pairs: MarketView,
    key: CoinPair,
    price: u128,
    other: CoinPair,
)
    ensures
        registered(pairs, key, price).contains_key(key),
        registered(pairs, key, price)[key] == (PairView { price, orders: Seq::empty() }),
        pairs.contains_key(other) ==> registered(pairs, key, price).contains_key(other),
        other != key ==> registered(pairs, key, price).contains_key(other) == pairs.contains_key(
            other,
        ),
        other != key && pairs.contains_key(other) ==> registered(pairs, key, price)[other]
            == pairs[other],
{
}

/// Creating an order appends it: the orders of its pair are those that were
/// there, in their order, and then the new one; the pair keeps its price.
pub proof fn lemma_order_creation_appends(kind: MarketKind, pairs: MarketView, order: OrderView)
    requires
        admitted(kind, pairs, order) is Ok,
    ensures
        ({
            let key = order.coins();
            let after = admitted(kind, pairs, order)->Ok_0;
            &&& pairs.contains_key(key)
            &&& after.contains_key(key)
            &&& after[key].price == pairs[key].price
            &&& after[key].orders.len() == pairs[key].orders.len() + 1
            &&& after[key].orders.last() == order
            &&& forall|i: int|
                0 <= i < pairs[key].orders.len() ==> after[key].orders[i] == pairs[key].orders[i]
        }),
{
}

/// Creating an order on one pair changes no other pair: the orders of every
/// other key are what they were, and no key comes or goes.
pub proof fn lemma_pair_isolation(
    kind: MarketKind,
    pairs: MarketView,
    order: OrderView,
    other: CoinPair,
)
    requires
        admitted(kind, pairs, order) is Ok,
        other != order.coins(),
    ensures
        ({
            let after = admitted(kind, pairs, order)->Ok_0;
            &&& after.contains_key(other) == pairs.contains_key(other)
            &&& pairs.contains_key(other) ==> after[other] == pairs[other]
        }),
        admitted(kind, pairs, order)->Ok_0.dom() == pairs.dom(),
{
    let after = admitted(kind, pairs, order)->Ok_0;
    assert(after.dom() =~= pairs.dom());
}

/// Every order rests on the pair that it trades, in a market of its kind.
pub open spec fn orders_in_place(kind: MarketKind, pairs: MarketView) -> bool {
    forall|key: CoinPair, i: int|
        pairs.contains_key(key) && 0 <= i < pairs[key].orders.len() ==> {
            &&& (#[trigger] pairs[key].orders[i]).coins() == key
            &&& pairs[key].orders[i].kind() == kind
        }
}

/// Orders stay in place: in a market without pairs every order is in place,
/// and registering a pair or creating an order keeps it so. An order created
/// on one pair is therefore never among the orders of another.
pub proof fn lemma_orders_stay_in_place(
    kind: MarketKind,
    pairs: MarketView,
    key: CoinPair,
    price: u128,
    order: OrderView,
)
    ensures
        orders_in_place(kind, Map::<CoinPair, PairView>::empty()),
        orders_in_place(kind, pairs) ==> orders_in_place(kind, registered(pairs, key, price)),
        orders_in_place(kind, pairs) && admitted(kind, pairs, order) is Ok ==> orders_in_place(
            kind,
            admitted(kind, pairs, order)->Ok_0,
        ),
{
    if orders_in_place(kind, pairs) {
        let after = registered(pairs, key, price);
        assert forall|k: CoinPair, i: int|
            after.contains_key(k) && 0 <= i < after[k].orders.len() implies {
            &&& (#[trigger] after[k].orders[i]).coins() == k
            &&& after[k].orders[i].kind() == kind
        } by {
            if k != key {
                assert(pairs[k].orders[i].coins() == k);
            }
        }
        if admitted(kind, pairs, order) is Ok {
            let grown = admitted(kind, pairs, order)->Ok_0;
            assert forall|k: CoinPair, i: int|
                grown.contains_key(k) && 0 <= i < grown[k].orders.len() implies {
                &&& (#[trigger] grown[k].orders[i]).coins() == k
                &&& grown[k].orders[i].kind() == kind
            } by {
                if k != order.coins() {
                    assert(pairs[k].orders[i].coins() == k);
                } else if i < pairs[k].orders.len() {
                    assert(pairs[k].orders[i].coins() == k);
                }
            }
        }
    }
}

/// The order that a request asks for is fresh: written by the submitter, on
/// the pair and at the price term of the request, of the request's kind, and
/// filled by nobody.
pub proof fn lemma_requested_order_is_fresh(
    options: OptionsOrderRequest,
    futures: FuturesOrderRequest,
)
    ensures
        options.order().is_fresh(),
        options.order().kind() == MarketKind::OPTIONS,
        options.order().writer() == options.user@,
        options.order().coins() == pair_key(&options.coins),
        options.order().price_term() == options.premium,
        futures.order().is_fresh(),
        futures.order().kind() == MarketKind::FUTURES,
        futures.order().writer() == futures.user@,
        futures.order().coins() == pair_key(&futures.coins),
        futures.order().price_term() == futures.price,
{
}

/// A market refuses every request of another kind than its own, whatever
/// pairs it has: a futures request to an options market, an options request
/// to a futures market.
pub proof fn lemma_kind_discrimination(kind: MarketKind, pairs: MarketView, order: OrderView)
    ensures
        order.kind() != kind <==> admitted(kind, pairs, order) == Err::<MarketView, EngineError>(
            EngineError::InvalidRequestKind,
        ),
{
}

} // verus!
