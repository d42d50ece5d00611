//! Coin pairs: the key under which a market keeps a tradable instrument.

use vstd::prelude::*;

verus! {

/// A coin pair as the contracts see it: the names of the base coin and of the
/// quote coin, in this order.
pub type CoinPair = (Seq<char>, Seq<char>);

/// The key that two coin names stand for.
pub open spec fn pair_key(coins: &[String; 2]) -> CoinPair {
    (coins[0]@, coins[1]@)
}

/// The coin in which trades on a pair are paid: its second coin.
pub open spec fn quote_coin(key: CoinPair) -> Seq<char> {
    key.1
}

/// Whether two arrays of coin names stand for the same pair.
pub fn same_pair(a: &[String; 2], b: &[String; 2]) -> (same: bool)
    ensures
        same == (pair_key(a) == pair_key(b)),
{
    a[0] == b[0] && a[1] == b[1]
}

/// A copy of two coin names.
pub fn copy_pair(coins: &[String; 2]) -> (copy: [String; 2])
    ensures
        pair_key(&copy) == pair_key(coins),
{
    [coins[0].clone(), coins[1].clone()]
}

} // verus!
