//! The ways in which an operation of the engine or of a market can fail.

use vstd::prelude::*;

verus! {

/// Why an operation was refused. A refused operation changes nothing.
#[derive(Clone, Copy, Debug, PartialEq, Eq, Structural)]
pub enum EngineError {
    /// The coin pair is not registered in the market.
    PairNotFound,
    /// The user has no ledger entry at all.
    UserNotFound,
    /// The user has a ledger entry, but none for the coin.
    CoinNotFound,
    /// The amount to take exceeds the balance.
    InsufficientBalance,
    /// A sum or a product does not fit in 128 bits.
    ArithmeticOverflow,
    /// The request is for another kind of instrument than the market trades.
    InvalidRequestKind,
}

impl EngineError {
    /// A short description of the error, for people.
    pub fn message(&self) -> (s: String)
        ensures
            s@ == self.message_text(),
    {
        match self {
            EngineError::PairNotFound => "Pair not found".to_string(),
            EngineError::UserNotFound => "User not found".to_string(),
            EngineError::CoinNotFound => "Coin not found".to_string(),
            EngineError::InsufficientBalance => "Insufficient balance".to_string(),
            EngineError::ArithmeticOverflow => "Arithmetic overflow".to_string(),
            EngineError::InvalidRequestKind => "Invalid order request type".to_string(),
        }
    }

    /// The text of [`EngineError::message`].
    pub open spec fn message_text(&self) -> Seq<char> {
        match self {
            EngineError::PairNotFound => "Pair not found"@,
            EngineError::UserNotFound => "User not found"@,
            EngineError::CoinNotFound => "Coin not found"@,
            EngineError::InsufficientBalance => "Insufficient balance"@,
            EngineError::ArithmeticOverflow => "Arithmetic overflow"@,
            EngineError::InvalidRequestKind => "Invalid order request type"@,
        }
    }
}

} // verus!
