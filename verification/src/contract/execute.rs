//! The operations that change the state or ask for a transfer.

use vstd::prelude::*;
use crate::coin::{Coin, CoinView};
use crate::error::{result_view, ContractError, ErrorView};
use crate::host::{InfoView, MessageInfo};
use crate::response::{Action, Response, ResponseView, Transfer, TransferView};
use crate::state::{Store, StoreView};

verus! {

/// One attached coin is enough for the threshold: same denomination, at least
/// the threshold's amount.
pub open spec fn meets(minimal: CoinView, fund: CoinView) -> bool {
    fund.denom == minimal.denom && fund.amount >= minimal.amount
}

/// A donation counts where the threshold is switched off (its amount is zero)
/// or at least one attached coin meets it, whatever else is attached.
pub open spec fn counts(minimal: CoinView, funds: Seq<CoinView>) -> bool {
    minimal.amount == 0 || exists|i: int| 0 <= i < funds.len() && meets(minimal, #[trigger] funds[i])
}

/// The counter that a donation leaves: raised by one where the donation
/// counts, as it was where it does not.
pub open spec fn donate_counter(s: StoreView, info: InfoView) -> Result<nat, ErrorView> {
    match (s.load_counter(), s.load_minimal_donation()) {
        (Err(e), _) => Err(e),
        (Ok(_), Err(e)) => Err(e),
        (Ok(counter), Ok(minimal)) => {
            if !counts(minimal, info.funds) {
                Ok(counter)
            } else if counter < u64::MAX {
                Ok(counter + 1)
            } else {
                Err(ErrorView::ArithmeticOverflow)
            }
        },
    }
}

/// The state after `donate`: only the counter can differ, and a failed call
/// changes nothing.
pub open spec fn donate_state(s: StoreView, info: InfoView) -> StoreView {
    match donate_counter(s, info) {
        Ok(counter) => StoreView { counter: Some(counter), ..s },
        Err(_) => s,
    }
}

/// What `donate` reports: the caller and the counter as the call leaves it.
pub open spec fn donate_result(s: StoreView, info: InfoView) -> Result<ResponseView, ErrorView> {
    match donate_counter(s, info) {
        Ok(counter) => Ok(
            ResponseView {
                action: Action::Donate,
                sender: info.sender,
                counter: Some(counter),
                transfer: None,
            },
        ),
        Err(e) => Err(e),
    }
}

/// The owner, where `sender` is the owner; else the refusal that names the
/// owner.
pub open spec fn authorize_result(s: StoreView, sender: Seq<char>) -> Result<Seq<char>, ErrorView> {
    match s.load_owner() {
        Err(e) => Err(e),
        Ok(owner) => if owner == sender {
            Ok(owner)
        } else {
            Err(ErrorView::Unauthorized { owner })
        },
    }
}

/// What `reset` reports. Where the policy asks for it the caller must be the
/// owner; the counter must have been initialized.
pub open spec fn reset_result(s: StoreView, info: InfoView, value: nat) -> Result<
    ResponseView,
    ErrorView,
> {
    if s.reset_requires_owner && authorize_result(s, info.sender) is Err {
        Err(authorize_result(s, info.sender)->Err_0)
    } else if s.load_counter() is Err {
        Err(s.load_counter()->Err_0)
    } else {
        Ok(
            ResponseView {
                action: Action::Reset,
                sender: info.sender,
                counter: Some(value),
                transfer: None,
            },
        )
    }
}

/// The state after `reset`: the counter is `value`, whatever it was; a failed
/// call changes nothing.
pub open spec fn reset_state(s: StoreView, info: InfoView, value: nat) -> StoreView {
    if reset_result(s, info, value) is Ok {
        StoreView { counter: Some(value), ..s }
    } else {
        s
    }
}

/// What `withdraw` reports: for the owner, a transfer of the whole balance to
/// the owner.
pub open spec fn withdraw_result(s: StoreView, info: InfoView, balance: Seq<CoinView>) -> Result<
    ResponseView,
    ErrorView,
> {
    match authorize_result(s, info.sender) {
        Err(e) => Err(e),
        Ok(owner) => Ok(
            ResponseView {
                action: Action::Withdraw,
                sender: owner,
                counter: None,
                transfer: Some(TransferView { to_address: owner, amount: balance }),
            },
        ),
    }
}

/// The cap that `limits` sets for `denom`: the amount of the first entry of
/// that denomination, and zero where there is none.
pub open spec fn limit_of(limits: Seq<CoinView>, denom: Seq<char>) -> nat
    decreases limits.len(),
{
    if limits.len() == 0 {
        0
    } else if limits[0].denom == denom {
        limits[0].amount
    } else {
        limit_of(limits.drop_first(), denom)
    }
}

/// One coin of the balance under the caps: the smaller of what is held and
/// what the caps allow for its denomination.
pub open spec fn capped(held: CoinView, limits: Seq<CoinView>) -> CoinView {
    let limit = limit_of(limits, held.denom);
    CoinView { denom: held.denom, amount: if held.amount < limit { held.amount } else { limit } }
}

/// The balance under the caps. An empty list of caps leaves the balance as it
/// is; otherwise every coin is capped, entry by entry and in order.
pub open spec fn clamped(balance: Seq<CoinView>, limits: Seq<CoinView>) -> Seq<CoinView> {
    if limits.len() == 0 {
        balance
    } else {
        Seq::new(balance.len(), |i: int| capped(balance[i], limits))
    }
}

/// What `withdraw_to` reports: for the owner and a receiver that the host
/// resolved, a transfer of the clamped balance to that receiver.
pub open spec fn withdraw_to_result(
    s: StoreView,
    info: InfoView,
    receiver: Option<Seq<char>>,
    balance: Seq<CoinView>,
    limits: Seq<CoinView>,
) -> Result<ResponseView, ErrorView> {
    match (authorize_result(s, info.sender), receiver) {
        (Err(e), _) => Err(e),
        (Ok(_), None) => Err(ErrorView::InvalidAddress),
        (Ok(_), Some(to_address)) => Ok(
            ResponseView {
                action: Action::WithdrawTo,
                sender: info.sender,
                counter: None,
                transfer: Some(TransferView { to_address, amount: clamped(balance, limits) }),
            },
        ),
    }
}

/// Whether a donation of `funds` counts against the threshold `minimal`.
pub fn donation_counts(minimal: &Coin, funds: &Vec<Coin>) -> (b: bool)
    ensures
        b == counts(minimal@, funds.deep_view()),
{
    if minimal.amount == 0 {
        return true;
    }
    let mut i: usize = 0;
    while i < funds.len()
        invariant
            i <= funds.len(),
            minimal.amount != 0,
            forall|j: int| 0 <= j < i ==> !meets(minimal@, #[trigger] funds.deep_view()[j]),
        decreases funds.len() - i,
    {
        if funds[i].denom == minimal.denom && funds[i].amount >= minimal.amount {
            assert(meets(minimal@, funds.deep_view()[i as int]));
            return true;
        }
        i += 1;
    }
    false
}

/// Tells the owner from everyone else.
pub fn authorize(store: &Store, sender: &String) -> (r: Result<String, ContractError>)
    ensures
        match r {
            Ok(owner) => authorize_result(store@, sender@) == Ok::<Seq<char>, ErrorView>(owner@),
            Err(e) => authorize_result(store@, sender@) == Err::<Seq<char>, ErrorView>(e@),
        },
{
    match store.load_owner() {
        Err(e) => Err(e),
        Ok(owner) => {
            if owner == *sender {
                Ok(owner)
            } else {
                Err(ContractError::Unauthorized { owner })
            }
        },
    }
}

/// Counts a donation: the counter goes up by one where the attached funds
/// reach the threshold and stays where they do not. Either way the call
/// succeeds and reports the counter.
pub fn donate(store: &mut Store, info: MessageInfo) -> (r: Result<Response, ContractError>)
    ensures
        result_view(r) == donate_result(old(store)@, info@),
        final(store)@ == donate_state(old(store)@, info@),
{
    let mut counter = match store.load_counter() {
        Ok(c) => c,
        Err(e) => { return Err(e); },
    };
    let minimal_donation = match store.load_minimal_donation() {
        Ok(m) => m,
        Err(e) => { return Err(e); },
    };
    if donation_counts(&minimal_donation, &info.funds) {
        if counter == u64::MAX {
            return Err(ContractError::ArithmeticOverflow);
        }
        counter = counter + 1;
        store.save_counter(counter);
    }
    Ok(Response { action: Action::Donate, sender: info.sender, counter: Some(counter), transfer: None })
}

/// Sets the counter to `value`, whatever it was.
pub fn reset(store: &mut Store, info: MessageInfo, value: u64) -> (r: Result<
    Response,
    ContractError,
>)
    ensures
        result_view(r) == reset_result(old(store)@, info@, value as nat),
        final(store)@ == reset_state(old(store)@, info@, value as nat),
{
    if store.reset_requires_owner() {
        match authorize(store, &info.sender) {
            Ok(_) => {},
            Err(e) => { return Err(e); },
        }
    }
    match store.load_counter() {
        Ok(_) => {},
        Err(e) => { return Err(e); },
    }
    store.save_counter(value);
    Ok(Response { action: Action::Reset, sender: info.sender, counter: Some(value), transfer: None })
}

/// Asks the host to move the contract's whole `balance` to the owner. Only
/// the owner may call.
pub fn withdraw(store: &Store, info: MessageInfo, balance: Vec<Coin>) -> (r: Result<
    Response,
    ContractError,
>)
    ensures
        result_view(r) == withdraw_result(store@, info@, balance.deep_view()),
{
    let owner = match authorize(store, &info.sender) {
        Ok(o) => o,
        Err(e) => { return Err(e); },
    };
    let transfer = Transfer { to_address: owner.clone(), amount: balance };
    Ok(Response { action: Action::Withdraw, sender: owner, counter: None, transfer: Some(transfer) })
}

/// The cap that `limit_funds` sets for `denom`.
pub fn limit_for(limit_funds: &Vec<Coin>, denom: &String) -> (limit: u128)
    ensures
        limit as nat == limit_of(limit_funds.deep_view(), denom@),
{
    let ghost limits = limit_funds.deep_view();
    let mut i: usize = 0;
    assert(limits.skip(0) =~= limits);
    while i < limit_funds.len()
        invariant
            i <= limit_funds.len(),
            limits == limit_funds.deep_view(),
            limit_of(limits, denom@) == limit_of(limits.skip(i as int), denom@),
        decreases limit_funds.len() - i,
    {
        if limit_funds[i].denom == *denom {
            return limit_funds[i].amount;
        }
        assert(limits.skip(i as int).drop_first() =~= limits.skip(i as int + 1));
        i += 1;
    }
    0
}

/// Puts the balance under the caps of `limit_funds`.
pub fn clamp_to_limits(balance: Vec<Coin>, limit_funds: &Vec<Coin>) -> (out: Vec<Coin>)
    ensures
        out.deep_view() == clamped(balance.deep_view(), limit_funds.deep_view()),
{
    if limit_funds.len() == 0 {
        return balance;
    }
    let ghost limits = limit_funds.deep_view();
    let mut out: Vec<Coin> = Vec::new();
    let mut i: usize = 0;
    while i < balance.len()
        invariant
            i <= balance.len(),
            out.len() == i,
            limits == limit_funds.deep_view(),
            forall|j: int| 0 <= j < i ==> (#[trigger] out[j])@ == capped(balance[j]@, limits),
        decreases balance.len() - i,
    {
        let limit = limit_for(limit_funds, &balance[i].denom);
        let held = balance[i].amount;
        let amount = if held < limit { held } else { limit };
        out.push(Coin { denom: balance[i].denom.clone(), amount });
        i += 1;
    }
    assert(out.deep_view() =~= clamped(balance.deep_view(), limits));
    out
}

/// Asks the host to move the contract's `balance`, held under the caps of
/// `limit_funds`, to `receiver`. Only the owner may call. `receiver` is the
/// identity to which the host resolved the address given, `None` where it
/// could not.
pub fn withdraw_to(
    store: &Store,
    info: MessageInfo,
    receiver: Option<String>,
    balance: Vec<Coin>,
    limit_funds: Vec<Coin>,
) -> (r: Result<Response, ContractError>)
    ensures
        result_view(r) == withdraw_to_result(
            store@,
            info@,
            receiver.deep_view(),
            balance.deep_view(),
            limit_funds.deep_view(),
        ),
{
    match authorize(store, &info.sender) {
        Ok(_) => {},
        Err(e) => { return Err(e); },
    }
    let to_address = match receiver {
        Some(r) => r,
        None => { return Err(ContractError::InvalidAddress); },
    };
    let amount = clamp_to_limits(balance, &limit_funds);
    let transfer = Transfer { to_address, amount };
    Ok(
        Response {
            action: Action::WithdrawTo,
            sender: info.sender,
            counter: None,
            transfer: Some(transfer),
        },
    )
}

} // verus!
