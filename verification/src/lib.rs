//! A counter kept on a ledger: anyone may donate, a donation that reaches the
//! configured threshold counts, and the owner may withdraw what was donated.
//!
//! The crate holds the contract's state machine and nothing else. The host
//! that stores the slots, answers balance queries, checks addresses and moves
//! funds stays outside: each operation takes the host's answers as plain
//! values and hands back a typed result.

use vstd::prelude::*;
use crate::error::{result_view, ContractError, ErrorView};
use crate::host::{Env, EnvView, InfoView, MessageInfo};
use crate::msg::{ExecMsg, InitMsg, QueryMsg, ValueResp};
use crate::response::{Response, ResponseView};
use crate::state::{Store, StoreView};

pub mod coin;
pub mod contract;
pub mod error;
pub mod host;
pub mod laws;
pub mod msg;
pub mod response;
pub mod state;

verus! {

/// The counter that initialization starts from: the one given, else zero.
pub open spec fn initial_counter(msg: InitMsg) -> nat {
    match msg.counter {
        Some(c) => c as nat,
        None => 0,
    }
}

/// What a query answers in state `s`.
pub open spec fn query_result(s: StoreView, msg: QueryMsg) -> Result<nat, ErrorView> {
    match msg {
        QueryMsg::Value {  } => contract::query::value_result(s),
        QueryMsg::Incremented { value } => contract::query::incremented_result(value as nat),
    }
}

/// What a mutating message reports: the result of the one operation that the
/// message names, fed with the caller, the message's own fields and the
/// host's answers.
pub open spec fn execute_result(s: StoreView, env: EnvView, info: InfoView, msg: ExecMsg) -> Result<
    ResponseView,
    ErrorView,
> {
    match msg {
        ExecMsg::Donate {  } => contract::execute::donate_result(s, info),
        ExecMsg::Reset { value } => contract::execute::reset_result(s, info, value as nat),
        ExecMsg::Withdraw {  } => contract::execute::withdraw_result(s, info, env.balance),
        ExecMsg::WithdrawTo { receiver, limit_funds } => contract::execute::withdraw_to_result(
            s,
            info,
            env.receiver,
            env.balance,
            limit_funds.deep_view(),
        ),
    }
}

/// The state that a mutating message leaves. The two withdrawals never touch
/// it.
pub open spec fn execute_state(s: StoreView, info: InfoView, msg: ExecMsg) -> StoreView {
    match msg {
        ExecMsg::Donate {  } => contract::execute::donate_state(s, info),
        ExecMsg::Reset { value } => contract::execute::reset_state(s, info, value as nat),
        ExecMsg::Withdraw {  } => s,
        ExecMsg::WithdrawTo { .. } => s,
    }
}

/// Initializes the contract from its first message; the caller becomes the
/// owner.
pub fn instantiate(store: &mut Store, info: MessageInfo, msg: InitMsg)
    ensures
        final(store)@ == contract::instantiate_state(
            info@,
            initial_counter(msg),
            msg.minimal_donation@,
            msg.reset_requires_owner,
        ),
        final(store)@.initialized(),
{
    let counter = match msg.counter {
        Some(c) => c,
        None => 0,
    };
    contract::instantiate(store, info, counter, msg.minimal_donation, msg.reset_requires_owner)
}

/// Answers a query. The store is only read.
pub fn query(store: &Store, msg: QueryMsg) -> (r: Result<ValueResp, ContractError>)
    ensures
        result_view(r) == query_result(store@, msg),
{
    match msg {
        QueryMsg::Value {  } => contract::query::value(store),
        QueryMsg::Incremented { value } => contract::query::incremented(value),
    }
}

/// Runs the operation that `msg` names. `env` holds the host's answers: the
/// contract's balance for the two withdrawals, and for `WithdrawTo` the
/// host's verdict on the receiver that the message names.
pub fn execute(store: &mut Store, env: Env, info: MessageInfo, msg: ExecMsg) -> (r: Result<
    Response,
    ContractError,
>)
    ensures
        result_view(r) == execute_result(old(store)@, env@, info@, msg),
        final(store)@ == execute_state(old(store)@, info@, msg),
{
    match msg {
        ExecMsg::Donate {  } => contract::execute::donate(store, info),
        ExecMsg::Reset { value } => contract::execute::reset(store, info, value),
        ExecMsg::Withdraw {  } => contract::execute::withdraw(store, info, env.balance),
        ExecMsg::WithdrawTo { receiver: _, limit_funds } => contract::execute::withdraw_to(
            store,
            info,
            env.receiver,
            env.balance,
            limit_funds,
        ),
    }
}

} // verus!
