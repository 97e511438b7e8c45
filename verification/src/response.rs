//! What a successful operation reports to the host.

use vstd::prelude::*;
use crate::coin::{Coin, CoinView};

verus! {

/// The operation that a response reports.
#[derive(Clone, Copy, Debug, PartialEq, Eq, Structural)]
pub enum Action {
    Donate,
    Reset,
    Withdraw,
    WithdrawTo,
}

impl Action {
    /// The name under which the host records the action.
    pub open spec fn name(self) -> Seq<char> {
        match self {
            Action::Donate => "donate"@,
            Action::Reset => "reset"@,
            Action::Withdraw => "withdraw"@,
            Action::WithdrawTo => "withdraw_to"@,
        }
    }

    /// The name under which the host records the action.
    pub fn as_str(&self) -> (s: &'static str)
        ensures
            s@ == self.name(),
    {
        match self {
            Action::Donate => "donate",
            Action::Reset => "reset",
            Action::Withdraw => "withdraw",
            Action::WithdrawTo => "withdraw_to",
        }
    }
}

/// An instruction to the host: move `amount` from the contract's own funds to
/// `to_address`. The contract moves nothing itself.
#[derive(Clone, Debug, PartialEq, Eq)]
pub struct Transfer {
    pub to_address: String,
    pub amount: Vec<Coin>,
}

/// The mathematical value of a [`Transfer`].
pub struct TransferView {
    pub to_address: Seq<char>,
    pub amount: Seq<CoinView>,
}

impl View for Transfer {
    type V = TransferView;

    open spec fn view(&self) -> TransferView {
        TransferView { to_address: self.to_address@, amount: self.amount.deep_view() }
    }
}

/// The record of one successful mutating call.
#[derive(Clone, Debug, PartialEq, Eq)]
pub struct Response {
    /// Which operation ran.
    pub action: Action,
    /// The identity on whose behalf it ran.
    pub sender: String,
    /// The counter after the call, for the operations that concern it.
    pub counter: Option<u64>,
    /// The transfer that the host is to carry out, if any.
    pub transfer: Option<Transfer>,
}

/// The mathematical value of a [`Response`].
pub struct ResponseView {
    pub action: Action,
    pub sender: Seq<char>,
    pub counter: Option<nat>,
    pub transfer: Option<TransferView>,
}

impl View for Response {
    type V = ResponseView;

    open spec fn view(&self) -> ResponseView {
        ResponseView {
            action: self.action,
            sender: self.sender@,
            counter: match self.counter {
                Some(c) => Some(c as nat),
                None => None,
            },
            transfer: match self.transfer {
                Some(t) => Some(t@),
                None => None,
            },
        }
    }
}

} // verus!
