//! Funds: an amount of one denomination.

use vstd::prelude::*;

verus! {

/// An amount of one denomination, as the ledger counts it.
#[derive(Clone, Debug, PartialEq, Eq)]
pub struct Coin {
    pub denom: String,
    pub amount: u128,
}

/// The mathematical value of a [`Coin`].
pub struct CoinView {
    pub denom: Seq<char>,
    pub amount: nat,
}

impl View for Coin {
    type V = CoinView;

    open spec fn view(&self) -> CoinView {
        CoinView { denom: self.denom@, amount: self.amount as nat }
    }
}

impl DeepView for Coin {
    type V = CoinView;

    open spec fn deep_view(&self) -> CoinView {
        self@
    }
}

impl Coin {
    /// A coin of `amount` units of `denom`.
    pub fn new(amount: u128, denom: &str) -> (c: Coin)
        ensures
            c@ == (CoinView { denom: denom@, amount: amount as nat }),
    {
        Coin { denom: denom.to_owned(), amount }
    }

    /// A copy of this coin.
    pub fn duplicate(&self) -> (c: Coin)
        ensures
            c@ == self@,
    {
        Coin { denom: self.denom.clone(), amount: self.amount }
    }
}

/// A coin of `amount` units of `denom`.
pub fn coin(amount: u128, denom: &str) -> (c: Coin)
    ensures
        c@ == (CoinView { denom: denom@, amount: amount as nat }),
{
    Coin::new(amount, denom)
}

/// A list that holds the one coin of `amount` units of `denom`.
pub fn coins(amount: u128, denom: &str) -> (v: Vec<Coin>)
    ensures
        v.deep_view() == seq![CoinView { denom: denom@, amount: amount as nat }],
{
    let mut v: Vec<Coin> = Vec::new();
    v.push(coin(amount, denom));
    assert(v.deep_view() =~= seq![CoinView { denom: denom@, amount: amount as nat }]);
    v
}

} // verus!
