//! The pairs of a market, kept in the order in which they were registered.
//!
//! A market holds its pairs in a vector in which no key occurs twice. The
//! functions here look a pair up, register one and append an order to one, and
//! say what each does to the map from keys to pairs that the vector stands for.

use vstd::prelude::*;
use crate::coins::{copy_pair, pair_key, same_pair, CoinPair};
use crate::market::{keys_of, MarketKind, MarketView, PairView};
use crate::order::{order_views, AnyOrder};

verus! {

/// One tradable pair: its two coins, its reference price, and the orders
/// resting on it, oldest first.
#[derive(Debug)]
pub struct Pair {
    pub coins: [String; 2],
    pub price: u128,
    pub orders: Vec<AnyOrder>,
}

impl View for Pair {
    type V = PairView;

    open spec fn view(&self) -> PairView {
        PairView { price: self.price, orders: order_views(self.orders@) }
    }
}

impl Pair {
    /// The key under which the pair is registered.
    pub open spec fn key(&self) -> CoinPair {
        pair_key(&self.coins)
    }

    /// Adds an order behind those that rest on the pair.
    pub fn push_order(&mut self, order: AnyOrder)
        ensures
            final(self).key() == old(self).key(),
            final(self)@ == (PairView { price: old(self)@.price, orders: old(self)@.orders.push(order@) }),
            final(self).orders@ == old(self).orders@.push(order),
    {
        self.orders.push(order);
        assert(order_views(self.orders@) =~= order_views(old(self).orders@).push(order@));
    }
}

/// Whether some pair of `pairs` is registered under `key`.
pub open spec fn listed(pairs: Seq<Pair>, key: CoinPair) -> bool {
    exists|i: int| 0 <= i < pairs.len() && #[trigger] pairs[i].key() == key
}

/// Where in `pairs` the pair registered under `key` stands, if there is one.
pub open spec fn position(pairs: Seq<Pair>, key: CoinPair) -> int {
    choose|i: int| 0 <= i < pairs.len() && #[trigger] pairs[i].key() == key
}

/// The map from keys to pairs that `pairs` stands for.
pub open spec fn listing(pairs: Seq<Pair>) -> MarketView {
    Map::new(|key: CoinPair| listed(pairs, key), |key: CoinPair| pairs[position(pairs, key)]@)
}

/// No key occurs twice in `pairs`.
pub open spec fn keys_distinct(pairs: Seq<Pair>) -> bool {
    forall|i: int, j: int| 0 <= i < j < pairs.len() ==> pairs[i].key() != pairs[j].key()
}

/// Every order in `pairs` trades the pair that it rests on and is of `kind`.
pub open spec fn orders_belong(pairs: Seq<Pair>, kind: MarketKind) -> bool {
    forall|i: int, j: int|
        0 <= i < pairs.len() && 0 <= j < pairs[i].orders@.len() ==> {
            &&& (#[trigger] pairs[i].orders@[j])@.coins() == pairs[i].key()
            &&& pairs[i].orders@[j]@.kind() == kind
        }
}

/// With distinct keys, the pair at position `i` is the one that the listing
/// gives for its key.
pub proof fn lemma_listing_at(pairs: Seq<Pair>, i: int)
    requires
        keys_distinct(pairs),
        0 <= i < pairs.len(),
    ensures
        listed(pairs, pairs[i].key()),
        position(pairs, pairs[i].key()) == i,
        listing(pairs).contains_key(pairs[i].key()),
        listing(pairs)[pairs[i].key()] == pairs[i]@,
{
    let key = pairs[i].key();
    assert(listed(pairs, key));
    let p = position(pairs, key);
    assert(0 <= p < pairs.len() && pairs[p].key() == key);
    if p < i {
        assert(pairs[p].key() != pairs[i].key());
    } else if i < p {
        assert(pairs[i].key() != pairs[p].key());
    }
}

/// Changing the pair at position `i`, but not its key, changes what the
/// listing gives for that key, and nothing else.
pub proof fn lemma_listing_changed_at(before: Seq<Pair>, after: Seq<Pair>, i: int)
    requires
        keys_distinct(before),
        0 <= i < before.len(),
        after.len() == before.len(),
        forall|j: int| 0 <= j < before.len() ==> #[trigger] after[j].key() == before[j].key(),
        forall|j: int| 0 <= j < before.len() && j != i ==> #[trigger] after[j]@ == before[j]@,
    ensures
        keys_distinct(after),
        listing(after) == listing(before).insert(before[i].key(), after[i]@),
{
    assert forall|key: CoinPair| listed(after, key) == listed(before, key) by {
        if listed(after, key) {
            assert(before[position(after, key)].key() == key);
        }
        if listed(before, key) {
            assert(after[position(before, key)].key() == key);
        }
    }
    assert forall|key: CoinPair| listed(after, key) implies #[trigger] listing(after)[key]
        == listing(before).insert(before[i].key(), after[i]@)[key] by {
        let j = position(after, key);
        lemma_listing_at(after, j);
        lemma_listing_at(before, j);
    }
    lemma_listing_at(before, i);
    assert(listing(after) =~= listing(before).insert(before[i].key(), after[i]@));
}

/// Adding a pair under a key that is not listed adds it to the listing, and
/// changes nothing else.
pub proof fn lemma_listing_grown(before: Seq<Pair>, pair: Pair)
    requires
        keys_distinct(before),
        !listed(before, pair.key()),
    ensures
        keys_distinct(before.push(pair)),
        listing(before.push(pair)) == listing(before).insert(pair.key(), pair@),
{
    let after = before.push(pair);
    assert forall|a: int, b: int| 0 <= a < b < after.len() implies after[a].key()
        != after[b].key() by {
        if b < before.len() {
            assert(before[a].key() != before[b].key());
        } else {
            assert(before[a].key() != pair.key());
        }
    }
    assert forall|key: CoinPair| listed(after, key) == (listed(before, key) || key
        == pair.key()) by {
        if listed(after, key) {
            let j = position(after, key);
            if j < before.len() {
                assert(before[j].key() == key);
            }
        }
        if listed(before, key) {
            assert(after[position(before, key)].key() == key);
        }
        if key == pair.key() {
            assert(after[before.len() as int].key() == key);
        }
    }
    assert forall|key: CoinPair| listed(after, key) implies #[trigger] listing(after)[key]
        == listing(before).insert(pair.key(), pair@)[key] by {
        let j = position(after, key);
        lemma_listing_at(after, j);
        if j < before.len() {
            lemma_listing_at(before, j);
        }
    }
    assert(listing(after) =~= listing(before).insert(pair.key(), pair@));
}

/// The position of the pair registered under the key of `coins`, if there is
/// one.
pub fn find_pair(pairs: &Vec<Pair>, coins: &[String; 2]) -> (found: Option<usize>)
    ensures
        match found {
            Some(i) => i < pairs.len() && pairs[i as int].key() == pair_key(coins),
            None => !listed(pairs@, pair_key(coins)),
        },
{
    let mut i: usize = 0;
    while i < pairs.len()
        invariant
            i <= pairs.len(),
            forall|j: int| 0 <= j < i ==> pairs[j].key() != pair_key(coins),
        decreases pairs.len() - i,
    {
        if same_pair(&pairs[i].coins, coins) {
            return Some(i);
        }
        i += 1;
    }
    None
}

/// Registers a pair with no orders under the key of `coins`, in place of the
/// pair that was registered under that key, if there was one.
pub fn register_pair(pairs: &mut Vec<Pair>, coins: &[String; 2], price: u128)
    requires
        keys_distinct(old(pairs)@),
    ensures
        keys_distinct(final(pairs)@),
        listing(final(pairs)@) == listing(old(pairs)@).insert(
            pair_key(coins),
            PairView { price, orders: Seq::empty() },
        ),
        forall|kind: MarketKind| #[trigger]
            orders_belong(old(pairs)@, kind) ==> orders_belong(final(pairs)@, kind),
{
    let pair = Pair { coins: copy_pair(coins), price, orders: Vec::new() };
    assert(pair@.orders =~= Seq::empty());
    match find_pair(pairs, coins) {
        Some(i) => {
            pairs.set(i, pair);
            proof {
                lemma_listing_changed_at(old(pairs)@, pairs@, i as int);
            }
        },
        None => {
            pairs.push(pair);
            proof {
                lemma_listing_grown(old(pairs)@, pair);
            }
        },
    }
}

/// Appends `order` to the pair at position `i`.
pub fn append_order(pairs: &mut Vec<Pair>, i: usize, order: AnyOrder)
    requires
        keys_distinct(old(pairs)@),
        i < old(pairs).len(),
    ensures
        keys_distinct(final(pairs)@),
        listing(final(pairs)@) == listing(old(pairs)@).insert(
            old(pairs)@[i as int].key(),
            PairView {
                price: old(pairs)@[i as int]@.price,
                orders: old(pairs)@[i as int]@.orders.push(order@),
            },
        ),
        forall|kind: MarketKind| #[trigger]
            orders_belong(old(pairs)@, kind) && order@.kind() == kind && order@.coins() == old(
                pairs,
            )@[i as int].key() ==> orders_belong(final(pairs)@, kind),
{
    pairs[i].push_order(order);
    proof {
        lemma_listing_changed_at(old(pairs)@, pairs@, i as int);
        assert forall|kind: MarketKind| #[trigger]
            orders_belong(old(pairs)@, kind) && order@.kind() == kind && order@.coins() == old(
                pairs,
            )@[i as int].key() implies orders_belong(pairs@, kind) by {
            assert forall|a: int, b: int|
                0 <= a < pairs@.len() && 0 <= b < pairs@[a].orders@.len() implies {
                &&& (#[trigger] pairs@[a].orders@[b])@.coins() == pairs@[a].key()
                &&& pairs@[a].orders@[b]@.kind() == kind
            } by {
                if a != i || b != old(pairs)@[a].orders@.len() {
                    assert(pairs@[a].orders@[b] == old(pairs)@[a].orders@[b]);
                }
            }
        }
    }
}

/// The coins of every pair of `pairs`, in the order of `pairs`.
pub fn pair_keys(pairs: &Vec<Pair>) -> (keys: Vec<[String; 2]>)
    requires
        keys_distinct(pairs@),
    ensures
        keys_of(keys@).no_duplicates(),
        keys_of(keys@).to_set() == listing(pairs@).dom(),
{
    let mut keys: Vec<[String; 2]> = Vec::new();
    let mut i: usize = 0;
    while i < pairs.len()
        invariant
            i <= pairs.len(),
            keys.len() == i,
            forall|j: int| 0 <= j < i ==> #[trigger] keys_of(keys@)[j] == pairs[j].key(),
        decreases pairs.len() - i,
    {
        let ghost before = keys@;
        keys.push(copy_pair(&pairs[i].coins));
        assert forall|j: int| 0 <= j < i + 1 implies #[trigger] keys_of(keys@)[j]
            == pairs[j].key() by {
            if j < i {
                assert(keys@[j] == before[j]);
                assert(keys_of(before)[j] == pairs[j].key());
            }
        }
        i += 1;
    }
    let ghost found = keys_of(keys@);
    assert(found.no_duplicates());
    assert forall|k: CoinPair| found.to_set().contains(k) == listing(pairs@).dom().contains(
        k,
    ) by {
        if found.to_set().contains(k) {
            let j = choose|j: int| 0 <= j < found.len() && found[j] == k;
            assert(pairs[j].key() == k);
        }
        if listed(pairs@, k) {
            let j = position(pairs@, k);
            assert(found[j] == k);
        }
    }
    assert(found.to_set() =~= listing(pairs@).dom());
    keys
}

} // verus!
