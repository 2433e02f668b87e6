//! Enumerations and matching.

use vstd::prelude::*;

verus! {

/// The coins in circulation.
pub enum Coin {
    Penny,
    Nickel,
    Dime,
    Quarter,
}

/// What `coin` is worth, in cents.
pub open spec fn cents(coin: Coin) -> u8 {
    match coin {
        Coin::Penny => 1,
        Coin::Nickel => 5,
        Coin::Dime => 10,
        Coin::Quarter => 25,
    }
}

/// Computes [`cents`].
pub fn value_in_cents(coin: Coin) -> (value: u8)
    ensures
        value == cents(coin),
{
    match coin {
        Coin::Penny => 1,
        Coin::Nickel => 5,
        Coin::Dime => 10,
        Coin::Quarter => 25,
    }
}

} // verus!
