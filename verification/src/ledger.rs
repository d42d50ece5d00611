//! The balance ledger: for each user, the amount held of each coin.

use vstd::prelude::*;
use vstd::hash_map::StringHashMap;
use crate::error::EngineError;

verus! {

/// The model of what one user holds: amounts by coin.
pub type Holdings = Map<Seq<char>, u128>;

/// The model of a ledger: holdings by user.
pub type LedgerView = Map<Seq<char>, Holdings>;

/// What `user` holds in `ledger`; nothing if the user has no entry.
pub open spec fn holdings(ledger: LedgerView, user: Seq<char>) -> Holdings {
    if ledger.contains_key(user) {
        ledger[user]
    } else {
        Map::empty()
    }
}

/// The amount of `coin` that `user` holds in `ledger`; zero where there is no
/// entry.
pub open spec fn balance(ledger: LedgerView, user: Seq<char>, coin: Seq<char>) -> u128 {
    if holdings(ledger, user).contains_key(coin) {
        holdings(ledger, user)[coin]
    } else {
        0
    }
}

/// The amount of `coin` that can be taken from `user`, or why none can: the
/// user has no entry, or has none for the coin.
pub open spec fn available(ledger: LedgerView, user: Seq<char>, coin: Seq<char>) -> Result<
    u128,
    EngineError,
> {
    if !ledger.contains_key(user) {
        Err(EngineError::UserNotFound)
    } else if !ledger[user].contains_key(coin) {
        Err(EngineError::CoinNotFound)
    } else {
        Ok(ledger[user][coin])
    }
}

/// `ledger` with the balance of `user` in `coin` set to `amount`. The entries
/// for the user and for the coin are created where they are missing; no other
/// balance changes.
pub open spec fn with_balance(
    ledger: LedgerView,
    user: Seq<char>,
    coin: Seq<char>,
    amount: u128,
) -> LedgerView {
    ledger.insert(user, holdings(ledger, user).insert(coin, amount))
}

/// What comes of adding `amount` of `coin` to what `user` holds: the new
/// ledger, or an overflow if the sum does not fit in 128 bits.
pub open spec fn credited(
    ledger: LedgerView,
    user: Seq<char>,
    coin: Seq<char>,
    amount: u128,
) -> Result<LedgerView, EngineError> {
    if balance(ledger, user, coin) + amount > u128::MAX {
        Err(EngineError::ArithmeticOverflow)
    } else {
        Ok(with_balance(ledger, user, coin, (balance(ledger, user, coin) + amount) as u128))
    }
}

/// What comes of taking `amount` of `coin` from what `user` holds: the new
/// ledger, or why nothing can be taken, or that the balance is too small.
pub open spec fn debited(
    ledger: LedgerView,
    user: Seq<char>,
    coin: Seq<char>,
    amount: u128,
) -> Result<LedgerView, EngineError> {
    match available(ledger, user, coin) {
        Err(e) => Err(e),
        Ok(held) => if amount > held {
            Err(EngineError::InsufficientBalance)
        } else {
            Ok(with_balance(ledger, user, coin, (held - amount) as u128))
        },
    }
}

/// What comes of moving `amount` of `coin` from `from` to `to`: the amount is
/// taken from `from`, then added to `to`. Where either step fails, so does
/// the whole.
pub open spec fn transferred(
    ledger: LedgerView,
    from: Seq<char>,
    to: Seq<char>,
    coin: Seq<char>,
    amount: u128,
) -> Result<LedgerView, EngineError> {
    match debited(ledger, from, coin, amount) {
        Err(e) => Err(e),
        Ok(taken) => credited(taken, to, coin, amount),
    }
}

/// The balances of all users.
///
/// Each user with an entry has a book of its own, which holds the user's
/// balance for each coin. `index` says which book is whose.
pub struct Ledger {
    index: StringHashMap<usize>,
    books: Vec<StringHashMap<u128>>,
}

impl View for Ledger {
    type V = LedgerView;

    closed spec fn view(&self) -> LedgerView {
        Map::new(
            |user: Seq<char>| self.index@.contains_key(user),
            |user: Seq<char>| self.books@[self.index@[user] as int]@,
        )
    }
}

impl Ledger {
    /// Every user's book exists, and no two users share one.
    #[verifier::type_invariant]
    spec fn well_formed(self) -> bool {
        &&& forall|user: Seq<char>| #[trigger]
            self.index@.contains_key(user) ==> self.index@[user] < self.books@.len()
        &&& forall|a: Seq<char>, b: Seq<char>|
            self.index@.contains_key(a) && self.index@.contains_key(b) && self.index@[a]
                == self.index@[b] ==> a == b
    }

    /// A ledger without entries.
    pub fn new() -> (ledger: Self)
        ensures
            ledger@ == Map::<Seq<char>, Holdings>::empty(),
    {
        let ledger = Ledger { index: StringHashMap::new(), books: Vec::new() };
        assert(ledger@ =~= Map::<Seq<char>, Holdings>::empty());
        ledger
    }

    /// The balance of `user` in `coin`, if there is an entry for it.
    pub fn balance_of(&self, user: &str, coin: &str) -> (held: Option<u128>)
        ensures
            held == (match available(self@, user@, coin@) {
                Ok(amount) => Some(amount),
                Err(_) => None,
            }),
    {
        match self.lookup(user, coin) {
            Ok(amount) => Some(amount),
            Err(_) => None,
        }
    }

    /// The amount of `coin` that can be taken from `user`, or why none can.
    pub fn lookup(&self, user: &str, coin: &str) -> (held: Result<u128, EngineError>)
        ensures
            held == available(self@, user@, coin@),
    {
        proof {
            use_type_invariant(self);
        }
        match self.index.get(user) {
            None => Err(EngineError::UserNotFound),
            Some(slot) => match self.books[*slot].get(coin) {
                None => Err(EngineError::CoinNotFound),
                Some(amount) => Ok(*amount),
            },
        }
    }

    /// Sets the balance of `user` in `coin`, and creates the entries for it
    /// where they are missing.
    fn set_balance(&mut self, user: &str, coin: &str, amount: u128)
        ensures
            final(self)@ == with_balance(old(self)@, user@, coin@, amount),
    {
        proof {
            use_type_invariant(&*self);
        }
        let mut index: StringHashMap<usize> = StringHashMap::new();
        let mut books: Vec<StringHashMap<u128>> = Vec::new();
        core::mem::swap(&mut index, &mut self.index);
        core::mem::swap(&mut books, &mut self.books);
        let found = match index.get(user) {
            Some(slot) => Some(*slot),
            None => None,
        };
        match found {
            Some(slot) => {
                books[slot].insert(coin.to_string(), amount);
            },
            None => {
                let slot = books.len();
                let mut book: StringHashMap<u128> = StringHashMap::new();
                book.insert(coin.to_string(), amount);
                books.push(book);
                index.insert(user.to_string(), slot);
            },
        }
        core::mem::swap(&mut books, &mut self.books);
        core::mem::swap(&mut index, &mut self.index);
        assert(self@ =~= with_balance(old(self)@, user@, coin@, amount));
    }

    /// Adds `amount` of `coin` to what `user` holds. Fails, and changes
    /// nothing, if the sum does not fit in 128 bits.
    pub fn credit(&mut self, user: &str, coin: &str, amount: u128) -> (result: Result<
        (),
        EngineError,
    >)
        ensures
            match credited(old(self)@, user@, coin@, amount) {
                Ok(ledger) => result is Ok && final(self)@ == ledger,
                Err(e) => result == Err::<(), EngineError>(e) && final(self)@ == old(self)@,
            },
    {
        let held = match self.lookup(user, coin) {
            Ok(amount) => amount,
            Err(_) => 0,
        };
        match held.checked_add(amount) {
            Some(sum) => {
                self.set_balance(user, coin, sum);
                Ok(())
            },
            None => Err(EngineError::ArithmeticOverflow),
        }
    }

    /// Takes `amount` of `coin` from what `user` holds. Fails, and changes
    /// nothing, if the user has no entry, or none for the coin, or holds less
    /// than `amount`.
    pub fn debit(&mut self, user: &str, coin: &str, amount: u128) -> (result: Result<
        (),
        EngineError,
    >)
        ensures
            match debited(old(self)@, user@, coin@, amount) {
                Ok(ledger) => result is Ok && final(self)@ == ledger,
                Err(e) => result == Err::<(), EngineError>(e) && final(self)@ == old(self)@,
            },
    {
        match self.lookup(user, coin) {
            Err(e) => Err(e),
            Ok(held) => {
                if amount > held {
                    Err(EngineError::InsufficientBalance)
                } else {
                    self.set_balance(user, coin, held - amount);
                    Ok(())
                }
            },
        }
    }

    /// Whether `amount` of `coin` can be moved from `from` to `to`, and if
    /// not, why.
    pub fn check_transfer(&self, from: &str, to: &str, coin: &str, amount: u128) -> (result:
        Result<(), EngineError>)
        ensures
            result == (match transferred(self@, from@, to@, coin@, amount) {
                Ok(_) => Ok::<(), EngineError>(()),
                Err(e) => Err(e),
            }),
    {
        proof {
            use_type_invariant(self);
        }
        match self.lookup(from, coin) {
            Err(e) => Err(e),
            Ok(held) => {
                if amount > held {
                    Err(EngineError::InsufficientBalance)
                } else {
                    let same_user = match (self.index.get(from), self.index.get(to)) {
                        (Some(a), Some(b)) => *a == *b,
                        _ => false,
                    };
                    let receiving = if same_user {
                        held - amount
                    } else {
                        match self.lookup(to, coin) {
                            Ok(amount) => amount,
                            Err(_) => 0,
                        }
                    };
                    assert(same_user == (from@ == to@));
                    assert(receiving == balance(
                        with_balance(self@, from@, coin@, (held - amount) as u128),
                        to@,
                        coin@,
                    ));
                    match receiving.checked_add(amount) {
                        Some(_) => Ok(()),
                        None => Err(EngineError::ArithmeticOverflow),
                    }
                }
            },
        }
    }

    /// Moves `amount` of `coin` from `from` to `to`: all of it, or nothing.
    pub fn transfer(&mut self, from: &str, to: &str, coin: &str, amount: u128) -> (result:
        Result<(), EngineError>)
        ensures
            match transferred(old(self)@, from@, to@, coin@, amount) {
                Ok(ledger) => result is Ok && final(self)@ == ledger,
                Err(e) => result == Err::<(), EngineError>(e) && final(self)@ == old(self)@,
            },
    {
        match self.check_transfer(from, to, coin, amount) {
            Err(e) => Err(e),
            Ok(()) => {
                let taken = self.debit(from, coin, amount);
                assert(taken is Ok);
                self.credit(to, coin, amount)
            },
        }
    }
}

} // verus!
