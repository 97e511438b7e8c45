//! What holds of the contract over all states and inputs.

use vstd::prelude::*;
use crate::coin::CoinView;
use crate::contract::execute::{
    authorize_result, capped, clamped, counts, donate_result, donate_state, limit_of, meets,
    reset_result, reset_state, withdraw_result, withdraw_to_result,
};
use crate::contract::instantiate_state;
use crate::contract::query::{incremented_result, value_result};
use crate::error::ErrorView;
use crate::host::InfoView;
use crate::msg::{ExecMsg, QueryMsg};
use crate::response::{Action, ResponseView, TransferView};
use crate::state::StoreView;
use crate::{execute_state, query_result};

verus! {

/// The state after a run of donations, one call after the other.
pub open spec fn donate_all(s: StoreView, calls: Seq<InfoView>) -> StoreView
    decreases calls.len(),
{
    if calls.len() == 0 {
        s
    } else {
        donate_state(donate_all(s, calls.drop_last()), calls.last())
    }
}

/// After initialization with a counter, the value query answers that counter.
pub proof fn value_after_instantiate(
    info: InfoView,
    counter: nat,
    minimal_donation: CoinView,
    reset_requires_owner: bool,
)
    ensures
        value_result(instantiate_state(info, counter, minimal_donation, reset_requires_owner))
            == Ok::<nat, ErrorView>(counter),
        instantiate_state(info, counter, minimal_donation, reset_requires_owner).initialized(),
{
}

/// With a threshold above zero, a donation without funds does not count, and
/// neither does one whose coins are all of other denominations.
pub proof fn funds_that_do_not_count(minimal: CoinView, funds: Seq<CoinView>)
    requires
        minimal.amount > 0,
        forall|i: int| 0 <= i < funds.len() ==> (#[trigger] funds[i]).denom != minimal.denom,
    ensures
        !counts(minimal, funds),
        !counts(minimal, Seq::<CoinView>::empty()),
{
}

/// A donation that does not count is no error and changes nothing: the state
/// is as before and the report carries the counter as it was.
pub proof fn donate_below_threshold(s: StoreView, info: InfoView)
    requires
        s.initialized(),
        !counts(s.minimal_donation->0, info.funds),
    ensures
        donate_state(s, info) == s,
        donate_result(s, info) == Ok::<ResponseView, ErrorView>(
            ResponseView {
                action: Action::Donate,
                sender: info.sender,
                counter: s.counter,
                transfer: None,
            },
        ),
{
}

/// One coin of the threshold's denomination and at least its amount makes a
/// donation count, whatever else is attached.
pub proof fn one_sufficient_coin_counts(minimal: CoinView, funds: Seq<CoinView>, i: int)
    requires
        0 <= i < funds.len(),
        funds[i].denom == minimal.denom,
        funds[i].amount >= minimal.amount,
    ensures
        counts(minimal, funds),
{
    assert(meets(minimal, funds[i]));
}

/// A donation that counts raises the counter by exactly one and touches
/// nothing else; a second one raises it by one again.
pub proof fn donate_at_threshold(s: StoreView, first: InfoView, second: InfoView)
    requires
        s.initialized(),
        s.counter->0 + 2 <= u64::MAX,
        counts(s.minimal_donation->0, first.funds),
        counts(s.minimal_donation->0, second.funds),
    ensures
        donate_state(s, first) == (StoreView { counter: Some(s.counter->0 + 1), ..s }),
        donate_result(s, first) == Ok::<ResponseView, ErrorView>(
            ResponseView {
                action: Action::Donate,
                sender: first.sender,
                counter: Some(s.counter->0 + 1),
                transfer: None,
            },
        ),
        donate_state(donate_state(s, first), second) == (StoreView {
            counter: Some(s.counter->0 + 2),
            ..s
        }),
{
}

/// A threshold of zero lets every donation count, one without funds too.
pub proof fn zero_threshold_always_counts(s: StoreView, info: InfoView)
    requires
        s.initialized(),
        s.minimal_donation->0.amount == 0,
        s.counter->0 < u64::MAX,
    ensures
        counts(s.minimal_donation->0, info.funds),
        counts(s.minimal_donation->0, Seq::<CoinView>::empty()),
        donate_state(s, info).counter == Some(s.counter->0 + 1),
{
}

/// Donations leave the owner, the threshold and the reset policy as they are,
/// and an initialized state stays initialized.
pub proof fn donations_keep_configuration(s: StoreView, calls: Seq<InfoView>)
    ensures
        donate_all(s, calls).owner == s.owner,
        donate_all(s, calls).minimal_donation == s.minimal_donation,
        donate_all(s, calls).reset_requires_owner == s.reset_requires_owner,
        s.initialized() ==> donate_all(s, calls).initialized(),
    decreases calls.len(),
{
    if calls.len() > 0 {
        donations_keep_configuration(s, calls.drop_last());
    }
}

/// Reset sets the counter to the value given, whatever any run of donations
/// made of it before. Where the policy asks for the owner, the caller is the
/// owner.
pub proof fn reset_after_donations(
    s: StoreView,
    calls: Seq<InfoView>,
    info: InfoView,
    value: nat,
)
    requires
        s.initialized(),
        s.reset_requires_owner ==> s.owner == Some(info.sender),
    ensures
        reset_state(donate_all(s, calls), info, value).counter == Some(value),
        value_result(reset_state(donate_all(s, calls), info, value)) == Ok::<nat, ErrorView>(
            value,
        ),
        reset_result(donate_all(s, calls), info, value) == Ok::<ResponseView, ErrorView>(
            ResponseView {
                action: Action::Reset,
                sender: info.sender,
                counter: Some(value),
                transfer: None,
            },
        ),
{
    donations_keep_configuration(s, calls);
}

/// Where reset is the owner's alone, anyone else is refused with the owner's
/// name, and the state stays as it is.
pub proof fn reset_by_stranger(s: StoreView, info: InfoView, value: nat)
    requires
        s.initialized(),
        s.reset_requires_owner,
        s.owner != Some(info.sender),
    ensures
        reset_result(s, info, value) == Err::<ResponseView, ErrorView>(
            ErrorView::Unauthorized { owner: s.owner->0 },
        ),
        reset_state(s, info, value) == s,
{
}

/// Withdraw is the owner's alone: the owner's call asks for the whole balance
/// to be moved to the owner, every coin of it and in full; any other caller
/// is refused with the owner's name and no transfer is asked for.
pub proof fn withdraw_moves_all_to_owner(s: StoreView, info: InfoView, balance: Seq<CoinView>)
    requires
        s.initialized(),
    ensures
        withdraw_result(s, info, balance) is Ok <==> s.owner == Some(info.sender),
        s.owner == Some(info.sender) ==> withdraw_result(s, info, balance) == Ok::<
            ResponseView,
            ErrorView,
        >(
            ResponseView {
                action: Action::Withdraw,
                sender: info.sender,
                counter: None,
                transfer: Some(TransferView { to_address: info.sender, amount: balance }),
            },
        ),
        s.owner != Some(info.sender) ==> withdraw_result(s, info, balance) == Err::<
            ResponseView,
            ErrorView,
        >(ErrorView::Unauthorized { owner: s.owner->0 }),
{
}

/// A denomination that no cap names has the cap zero.
pub proof fn unlisted_limit_is_zero(limits: Seq<CoinView>, denom: Seq<char>)
    requires
        forall|j: int| 0 <= j < limits.len() ==> (#[trigger] limits[j]).denom != denom,
    ensures
        limit_of(limits, denom) == 0,
    decreases limits.len(),
{
    if limits.len() > 0 {
        assert(limits[0].denom != denom);
        assert forall|j: int| 0 <= j < limits.drop_first().len() implies (
        #[trigger] limits.drop_first()[j]).denom != denom by {
            assert(limits.drop_first()[j] == limits[j + 1]);
        }
        unlisted_limit_is_zero(limits.drop_first(), denom);
    }
}

/// The cap of a denomination is the amount of the first entry that names it.
pub proof fn first_listed_limit(limits: Seq<CoinView>, denom: Seq<char>, k: int)
    requires
        0 <= k < limits.len(),
        limits[k].denom == denom,
        forall|j: int| 0 <= j < k ==> (#[trigger] limits[j]).denom != denom,
    ensures
        limit_of(limits, denom) == limits[k].amount,
    decreases limits.len(),
{
    if k > 0 {
        assert(limits[0].denom != denom);
        assert(limits.drop_first()[k - 1] == limits[k]);
        assert forall|j: int| 0 <= j < k - 1 implies (#[trigger] limits.drop_first()[j]).denom
            != denom by {
            assert(limits.drop_first()[j] == limits[j + 1]);
        }
        first_listed_limit(limits.drop_first(), denom, k - 1);
    }
}

/// Under any list of caps the transfer names the coins of the balance, each
/// in its place and none above what is held. Under a list that is not empty
/// each amount is the smaller of what is held and the cap, so that a
/// denomination which no cap names contributes zero. An empty list caps
/// nothing.
pub proof fn withdraw_to_clamps(balance: Seq<CoinView>, limits: Seq<CoinView>, i: int)
    requires
        0 <= i < balance.len(),
    ensures
        clamped(balance, limits).len() == balance.len(),
        clamped(balance, limits)[i].denom == balance[i].denom,
        clamped(balance, limits)[i].amount <= balance[i].amount,
        limits.len() == 0 ==> clamped(balance, limits) == balance,
        limits.len() > 0 ==> clamped(balance, limits)[i] == capped(balance[i], limits),
        limits.len() > 0 ==> clamped(balance, limits)[i].amount <= limit_of(
            limits,
            balance[i].denom,
        ),
        limits.len() > 0 && (forall|j: int|
            0 <= j < limits.len() ==> (#[trigger] limits[j]).denom != balance[i].denom)
            ==> clamped(balance, limits)[i].amount == 0,
{
    if limits.len() > 0 && (forall|j: int|
        0 <= j < limits.len() ==> (#[trigger] limits[j]).denom != balance[i].denom) {
        unlisted_limit_is_zero(limits, balance[i].denom);
    }
}

/// What the owner's `withdraw_to` asks for: the clamped balance, to the
/// receiver as the host resolved it.
pub proof fn withdraw_to_sends_clamped(
    s: StoreView,
    info: InfoView,
    receiver: Seq<char>,
    balance: Seq<CoinView>,
    limits: Seq<CoinView>,
)
    requires
        s.owner == Some(info.sender),
    ensures
        withdraw_to_result(s, info, Some(receiver), balance, limits) == Ok::<
            ResponseView,
            ErrorView,
        >(
            ResponseView {
                action: Action::WithdrawTo,
                sender: info.sender,
                counter: None,
                transfer: Some(
                    TransferView { to_address: receiver, amount: clamped(balance, limits) },
                ),
            },
        ),
{
}

/// A receiver that the host cannot resolve ends the owner's call with
/// `InvalidAddress`: no transfer is asked for, whatever the balance and the
/// caps. The caller is judged first: a stranger is refused as a stranger.
pub proof fn invalid_receiver_is_refused(
    s: StoreView,
    info: InfoView,
    balance: Seq<CoinView>,
    limits: Seq<CoinView>,
)
    requires
        s.initialized(),
    ensures
        s.owner == Some(info.sender) ==> withdraw_to_result(s, info, None, balance, limits)
            == Err::<ResponseView, ErrorView>(ErrorView::InvalidAddress),
        s.owner != Some(info.sender) ==> withdraw_to_result(s, info, None, balance, limits)
            == Err::<ResponseView, ErrorView>(ErrorView::Unauthorized { owner: s.owner->0 }),
        withdraw_to_result(s, info, None, balance, limits) is Err,
{
}

/// The incremented query answers `value + 1` in every state alike: the stored
/// counter plays no part.
pub proof fn incremented_ignores_state(s1: StoreView, s2: StoreView, value: u64)
    ensures
        query_result(s1, QueryMsg::Incremented { value }) == query_result(
            s2,
            QueryMsg::Incremented { value },
        ),
        value < u64::MAX ==> query_result(s1, QueryMsg::Incremented { value }) == Ok::<
            nat,
            ErrorView,
        >((value + 1) as nat),
        value < u64::MAX ==> incremented_result(value as nat) == Ok::<nat, ErrorView>(
            (value + 1) as nat,
        ),
{
}

/// No message changes the owner, the threshold or the reset policy, and none
/// takes an initialized state out of initialization.
pub proof fn configuration_is_immutable(s: StoreView, info: InfoView, msg: ExecMsg)
    ensures
        execute_state(s, info, msg).owner == s.owner,
        execute_state(s, info, msg).minimal_donation == s.minimal_donation,
        execute_state(s, info, msg).reset_requires_owner == s.reset_requires_owner,
        s.initialized() ==> execute_state(s, info, msg).initialized(),
{
}

/// A call that fails leaves the state as it was.
pub proof fn failure_changes_nothing(s: StoreView, info: InfoView, value: nat)
    ensures
        donate_result(s, info) is Err ==> donate_state(s, info) == s,
        reset_result(s, info, value) is Err ==> reset_state(s, info, value) == s,
{
}

/// Before initialization every slot is missing, and each operation that
/// reads one fails with `StorageCorrupt`.
pub proof fn uninitialized_is_corrupt(info: InfoView, balance: Seq<CoinView>)
    ensures
        value_result(StoreView::empty()) == Err::<nat, ErrorView>(ErrorView::StorageCorrupt),
        donate_result(StoreView::empty(), info) == Err::<ResponseView, ErrorView>(
            ErrorView::StorageCorrupt,
        ),
        withdraw_result(StoreView::empty(), info, balance) == Err::<ResponseView, ErrorView>(
            ErrorView::StorageCorrupt,
        ),
        authorize_result(StoreView::empty(), info.sender) == Err::<Seq<char>, ErrorView>(
            ErrorView::StorageCorrupt,
        ),
{
}

} // verus!
