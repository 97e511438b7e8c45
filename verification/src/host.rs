//! What the host hands to a call.

use vstd::prelude::*;
use crate::coin::{Coin, CoinView};

verus! {

/// Who calls, and the funds attached to the call.
#[derive(Clone, Debug, PartialEq, Eq)]
pub struct MessageInfo {
    pub sender: String,
    pub funds: Vec<Coin>,
}

/// The mathematical value of a [`MessageInfo`].
pub struct InfoView {
    pub sender: Seq<char>,
    pub funds: Seq<CoinView>,
}

impl View for MessageInfo {
    type V = InfoView;

    open spec fn view(&self) -> InfoView {
        InfoView { sender: self.sender@, funds: self.funds.deep_view() }
    }
}

impl MessageInfo {
    /// A call by `sender` that brings `funds`.
    pub fn new(sender: &str, funds: Vec<Coin>) -> (info: MessageInfo)
        ensures
            info@ == (InfoView { sender: sender@, funds: funds.deep_view() }),
    {
        MessageInfo { sender: sender.to_owned(), funds }
    }
}

/// The answers of the ledger and of the address checker, taken before a call
/// that may need them.
#[derive(Clone, Debug, PartialEq, Eq)]
pub struct Env {
    /// All that the ledger holds for the contract's own address.
    pub balance: Vec<Coin>,
    /// The identity to which the address checker resolved the receiver that
    /// the message names; `None` where it refused the string, or where the
    /// message names no receiver.
    pub receiver: Option<String>,
}

/// The mathematical value of an [`Env`].
pub struct EnvView {
    pub balance: Seq<CoinView>,
    pub receiver: Option<Seq<char>>,
}

impl View for Env {
    type V = EnvView;

    open spec fn view(&self) -> EnvView {
        EnvView {
            balance: self.balance.deep_view(),
            receiver: match self.receiver {
                Some(r) => Some(r@),
                None => None,
            },
        }
    }
}

} // verus!
