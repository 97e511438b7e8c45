//! The typed messages that reach the contract.

use vstd::prelude::*;
use crate::coin::Coin;

verus! {

/// A read-only request.
#[derive(Clone, Copy, Debug, PartialEq, Eq, Structural)]
pub enum QueryMsg {
    /// The stored counter.
    Value {},
    /// `value` plus one; the stored counter plays no part.
    Incremented { value: u64 },
}

/// The answer to either query.
#[derive(Clone, Copy, Debug, PartialEq, Eq, Structural)]
pub struct ValueResp {
    pub value: u64,
}

impl View for ValueResp {
    type V = nat;

    open spec fn view(&self) -> nat {
        self.value as nat
    }
}

/// What initialization is given.
#[derive(Clone, Debug, PartialEq, Eq)]
pub struct InitMsg {
    /// The counter's first value; zero where none is given.
    pub counter: Option<u64>,
    /// The least donation that counts. An amount of zero lets every donation
    /// count.
    pub minimal_donation: Coin,
    /// Whether only the owner may reset the counter.
    pub reset_requires_owner: bool,
}

/// A request that may change the state or ask for a transfer.
#[derive(Clone, Debug, PartialEq, Eq)]
pub enum ExecMsg {
    Donate {},
    Reset { value: u64 },
    Withdraw {},
    WithdrawTo { receiver: String, limit_funds: Vec<Coin> },
}

} // verus!
