//! The operations called directly, on states and answers written by hand.

use counting_contract::coin::{coin, coins, Coin};
use counting_contract::contract::execute::{
    authorize, clamp_to_limits, donate, donation_counts, limit_for, reset, withdraw, withdraw_to,
};
use counting_contract::contract::instantiate;
use counting_contract::contract::query::{incremented, value};
use counting_contract::error::ContractError;
use counting_contract::host::{Env, MessageInfo};
use counting_contract::msg::{ExecMsg, InitMsg, QueryMsg, ValueResp};
use counting_contract::response::{Action, Response, Transfer};
use counting_contract::state::Store;

const NEAR: &str = "NEAR";

fn caller(sender: &str) -> MessageInfo {
    MessageInfo::new(sender, vec![])
}

fn initialized(counter: u64, minimal_donation: Coin, reset_requires_owner: bool) -> Store {
    let mut store = Store::new();
    instantiate(
        &mut store,
        caller("owner"),
        counter,
        minimal_donation,
        reset_requires_owner,
    );
    store
}

#[test]
fn coin_and_coins_hold_what_they_are_given() {
    let c = coin(10, NEAR);
    assert_eq!(c.amount, 10);
    assert_eq!(c.denom, "NEAR");
    assert_eq!(c, Coin::new(10, NEAR));
    assert_eq!(c.duplicate(), c);
    assert_eq!(coins(10, NEAR), vec![c]);
}

#[test]
fn actions_are_named() {
    assert_eq!(Action::Donate.as_str(), "donate");
    assert_eq!(Action::Reset.as_str(), "reset");
    assert_eq!(Action::Withdraw.as_str(), "withdraw");
    assert_eq!(Action::WithdrawTo.as_str(), "withdraw_to");
}

#[test]
fn a_new_store_is_empty() {
    let store = Store::new();
    assert_eq!(store.load_counter(), Err(ContractError::StorageCorrupt));
    assert_eq!(
        store.load_minimal_donation(),
        Err(ContractError::StorageCorrupt)
    );
    assert_eq!(store.load_owner(), Err(ContractError::StorageCorrupt));
    assert!(!store.reset_requires_owner());
}

#[test]
fn a_slot_gives_back_what_was_saved_last() {
    let mut store = Store::new();
    store.save_counter(3);
    store.save_counter(8);
    store.save_minimal_donation(coin(2, NEAR));
    store.save_owner(String::from("owner"));
    store.set_reset_requires_owner(true);
    assert_eq!(store.load_counter(), Ok(8));
    assert_eq!(store.load_minimal_donation(), Ok(coin(2, NEAR)));
    assert_eq!(store.load_owner(), Ok(String::from("owner")));
    assert!(store.reset_requires_owner());
}

#[test]
fn instantiate_writes_every_slot() {
    let store = initialized(10, coin(10, "X"), true);
    assert_eq!(value(&store), Ok(ValueResp { value: 10 }));
    assert_eq!(store.load_counter(), Ok(10));
    assert_eq!(store.load_minimal_donation(), Ok(coin(10, "X")));
    assert_eq!(store.load_owner(), Ok(String::from("owner")));
    assert!(store.reset_requires_owner());
}

#[test]
fn instantiate_overwrites_what_was_there() {
    let mut store = initialized(10, coin(10, "X"), true);
    instantiate(&mut store, caller("other"), 3, coin(1, NEAR), false);
    assert_eq!(store.load_counter(), Ok(3));
    assert_eq!(store.load_minimal_donation(), Ok(coin(1, NEAR)));
    assert_eq!(store.load_owner(), Ok(String::from("other")));
    assert!(!store.reset_requires_owner());
}

#[test]
fn the_first_message_defaults_the_counter_to_zero() {
    let mut store = Store::new();
    counting_contract::instantiate(
        &mut store,
        caller("owner"),
        InitMsg {
            counter: None,
            minimal_donation: coin(10, NEAR),
            reset_requires_owner: true,
        },
    );
    assert_eq!(value(&store), Ok(ValueResp { value: 0 }));

    counting_contract::instantiate(
        &mut store,
        caller("owner"),
        InitMsg {
            counter: Some(10),
            minimal_donation: coin(10, NEAR),
            reset_requires_owner: true,
        },
    );
    assert_eq!(value(&store), Ok(ValueResp { value: 10 }));
}

#[test]
fn donation_counts_by_threshold() {
    let minimal = coin(10, NEAR);
    assert!(!donation_counts(&minimal, &vec![]));
    assert!(!donation_counts(&minimal, &coins(9, NEAR)));
    assert!(donation_counts(&minimal, &coins(10, NEAR)));
    assert!(donation_counts(&minimal, &coins(11, NEAR)));
    assert!(!donation_counts(&minimal, &coins(10, "ATOM")));
    assert!(!donation_counts(&minimal, &coins(1000, "near")));
    assert!(donation_counts(
        &minimal,
        &vec![coin(1, "ATOM"), coin(3, NEAR), coin(10, NEAR)]
    ));
    assert!(!donation_counts(
        &minimal,
        &vec![coin(100, "ATOM"), coin(9, NEAR)]
    ));
    assert!(donation_counts(&coin(0, "X"), &vec![]));
    assert!(donation_counts(&coin(0, "X"), &coins(1, NEAR)));
}

#[test]
fn donate_below_threshold_is_a_no_op() {
    let mut store = initialized(0, coin(10, NEAR), true);

    let resp = donate(&mut store, caller("sender")).unwrap();
    assert_eq!(
        resp,
        Response {
            action: Action::Donate,
            sender: String::from("sender"),
            counter: Some(0),
            transfer: None,
        }
    );
    assert_eq!(value(&store), Ok(ValueResp { value: 0 }));

    let resp = donate(&mut store, MessageInfo::new("sender", coins(10, "ATOM"))).unwrap();
    assert_eq!(resp.counter, Some(0));
    assert_eq!(value(&store), Ok(ValueResp { value: 0 }));

    let resp = donate(&mut store, MessageInfo::new("sender", coins(9, NEAR))).unwrap();
    assert_eq!(resp.counter, Some(0));
    assert_eq!(value(&store), Ok(ValueResp { value: 0 }));
}

#[test]
fn donate_at_threshold_increments_once_per_call() {
    let mut store = initialized(0, coin(10, NEAR), true);

    let resp = donate(&mut store, MessageInfo::new("sender", coins(10, NEAR))).unwrap();
    assert_eq!(
        resp,
        Response {
            action: Action::Donate,
            sender: String::from("sender"),
            counter: Some(1),
            transfer: None,
        }
    );
    assert_eq!(value(&store), Ok(ValueResp { value: 1 }));

    let resp = donate(&mut store, MessageInfo::new("other", coins(25, NEAR))).unwrap();
    assert_eq!(resp.counter, Some(2));
    assert_eq!(value(&store), Ok(ValueResp { value: 2 }));
}

#[test]
fn donate_leaves_owner_and_threshold() {
    let mut store = initialized(0, coin(10, NEAR), true);
    donate(&mut store, MessageInfo::new("sender", coins(10, NEAR))).unwrap();
    assert_eq!(store.load_owner(), Ok(String::from("owner")));
    assert_eq!(store.load_minimal_donation(), Ok(coin(10, NEAR)));
    assert!(store.reset_requires_owner());
}

#[test]
fn zero_threshold_always_counts() {
    let mut store = initialized(0, coin(0, "X"), true);
    assert_eq!(donate(&mut store, caller("sender")).unwrap().counter, Some(1));
    assert_eq!(
        donate(&mut store, MessageInfo::new("sender", coins(1, NEAR)))
            .unwrap()
            .counter,
        Some(2)
    );
    assert_eq!(value(&store), Ok(ValueResp { value: 2 }));
}

#[test]
fn donate_at_the_largest_counter_overflows() {
    let mut store = initialized(u64::MAX, coin(0, "X"), true);
    assert_eq!(
        donate(&mut store, caller("sender")),
        Err(ContractError::ArithmeticOverflow)
    );
    assert_eq!(value(&store), Ok(ValueResp { value: u64::MAX }));

    let mut store = initialized(u64::MAX, coin(10, NEAR), true);
    assert_eq!(
        donate(&mut store, caller("sender")).unwrap().counter,
        Some(u64::MAX)
    );

    let mut store = initialized(u64::MAX - 1, coin(0, "X"), true);
    assert_eq!(
        donate(&mut store, caller("sender")).unwrap().counter,
        Some(u64::MAX)
    );
}

#[test]
fn reset_sets_the_value_whatever_came_before() {
    let mut store = initialized(0, coin(10, NEAR), true);
    for _ in 0..7 {
        donate(&mut store, MessageInfo::new("sender", coins(10, NEAR))).unwrap();
    }
    assert_eq!(value(&store), Ok(ValueResp { value: 7 }));

    let resp = reset(&mut store, caller("owner"), 5).unwrap();
    assert_eq!(
        resp,
        Response {
            action: Action::Reset,
            sender: String::from("owner"),
            counter: Some(5),
            transfer: None,
        }
    );
    assert_eq!(value(&store), Ok(ValueResp { value: 5 }));

    reset(&mut store, caller("owner"), 0).unwrap();
    assert_eq!(value(&store), Ok(ValueResp { value: 0 }));
}

#[test]
fn reset_follows_the_policy() {
    let mut gated = initialized(1, coin(10, NEAR), true);
    assert_eq!(
        reset(&mut gated, caller("sender"), 5),
        Err(ContractError::Unauthorized {
            owner: String::from("owner")
        })
    );
    assert_eq!(value(&gated), Ok(ValueResp { value: 1 }));

    let mut open = initialized(1, coin(10, NEAR), false);
    let resp = reset(&mut open, caller("sender"), 5).unwrap();
    assert_eq!(resp.sender, "sender");
    assert_eq!(value(&open), Ok(ValueResp { value: 5 }));
}

#[test]
fn authorize_tells_the_owner_from_the_rest() {
    let store = initialized(0, coin(10, NEAR), true);
    assert_eq!(
        authorize(&store, &String::from("owner")),
        Ok(String::from("owner"))
    );
    assert_eq!(
        authorize(&store, &String::from("Owner")),
        Err(ContractError::Unauthorized {
            owner: String::from("owner")
        })
    );
    assert_eq!(
        authorize(&Store::new(), &String::from("owner")),
        Err(ContractError::StorageCorrupt)
    );
}

#[test]
fn withdraw_asks_for_the_whole_balance() {
    let store = initialized(0, coin(10, NEAR), true);
    let balance = vec![coin(7, "ATOM"), coin(15, NEAR)];

    let resp = withdraw(&store, caller("owner"), balance.clone()).unwrap();
    assert_eq!(
        resp,
        Response {
            action: Action::Withdraw,
            sender: String::from("owner"),
            counter: None,
            transfer: Some(Transfer {
                to_address: String::from("owner"),
                amount: balance.clone(),
            }),
        }
    );

    assert_eq!(
        withdraw(&store, caller("member"), balance),
        Err(ContractError::Unauthorized {
            owner: String::from("owner")
        })
    );

    let resp = withdraw(&store, caller("owner"), vec![]).unwrap();
    assert_eq!(resp.transfer.unwrap().amount, vec![]);
}

#[test]
fn limit_for_takes_the_first_entry_of_the_denomination() {
    let limits = vec![coin(4, NEAR), coin(9, "ATOM"), coin(100, NEAR)];
    assert_eq!(limit_for(&limits, &String::from("NEAR")), 4);
    assert_eq!(limit_for(&limits, &String::from("ATOM")), 9);
    assert_eq!(limit_for(&limits, &String::from("BTC")), 0);
    assert_eq!(limit_for(&vec![], &String::from("NEAR")), 0);
}

#[test]
fn clamp_to_limits_caps_each_coin() {
    let balance = vec![coin(10, NEAR), coin(7, "ATOM"), coin(3, "BTC")];

    assert_eq!(clamp_to_limits(balance.clone(), &vec![]), balance);
    assert_eq!(
        clamp_to_limits(balance.clone(), &coins(4, NEAR)),
        vec![coin(4, NEAR), coin(0, "ATOM"), coin(0, "BTC")]
    );
    assert_eq!(
        clamp_to_limits(balance.clone(), &vec![coin(50, "BTC"), coin(10, NEAR)]),
        vec![coin(10, NEAR), coin(0, "ATOM"), coin(3, "BTC")]
    );
    assert_eq!(
        clamp_to_limits(balance, &vec![coin(0, NEAR), coin(8, NEAR), coin(7, "ATOM")]),
        vec![coin(0, NEAR), coin(7, "ATOM"), coin(0, "BTC")]
    );
    assert_eq!(clamp_to_limits(vec![], &coins(4, NEAR)), vec![]);
}

#[test]
fn withdraw_to_sends_the_clamped_balance_to_the_receiver() {
    let store = initialized(0, coin(10, NEAR), true);

    let resp = withdraw_to(
        &store,
        caller("owner"),
        Some(String::from("receiver")),
        coins(10, NEAR),
        coins(4, NEAR),
    )
    .unwrap();
    assert_eq!(
        resp,
        Response {
            action: Action::WithdrawTo,
            sender: String::from("owner"),
            counter: None,
            transfer: Some(Transfer {
                to_address: String::from("receiver"),
                amount: coins(4, NEAR),
            }),
        }
    );

    let resp = withdraw_to(
        &store,
        caller("owner"),
        Some(String::from("receiver")),
        vec![coin(10, NEAR), coin(7, "ATOM")],
        vec![],
    )
    .unwrap();
    assert_eq!(
        resp.transfer.unwrap().amount,
        vec![coin(10, NEAR), coin(7, "ATOM")]
    );
}

#[test]
fn withdraw_to_judges_the_caller_before_the_receiver() {
    let store = initialized(0, coin(10, NEAR), true);

    assert_eq!(
        withdraw_to(&store, caller("owner"), None, coins(10, NEAR), coins(4, NEAR)),
        Err(ContractError::InvalidAddress)
    );
    assert_eq!(
        withdraw_to(&store, caller("member"), None, coins(10, NEAR), coins(4, NEAR)),
        Err(ContractError::Unauthorized {
            owner: String::from("owner")
        })
    );
    assert_eq!(
        withdraw_to(
            &store,
            caller("member"),
            Some(String::from("member")),
            coins(10, NEAR),
            vec![]
        ),
        Err(ContractError::Unauthorized {
            owner: String::from("owner")
        })
    );
}

#[test]
fn incremented_adds_one_in_every_state() {
    assert_eq!(incremented(0), Ok(ValueResp { value: 1 }));
    assert_eq!(incremented(1), Ok(ValueResp { value: 2 }));
    assert_eq!(incremented(41), Ok(ValueResp { value: 42 }));
    assert_eq!(
        incremented(u64::MAX - 1),
        Ok(ValueResp { value: u64::MAX })
    );
    assert_eq!(incremented(u64::MAX), Err(ContractError::ArithmeticOverflow));

    let store = initialized(10, coin(10, NEAR), true);
    let before = store.clone();
    assert_eq!(
        counting_contract::query(&store, QueryMsg::Incremented { value: 1 }),
        Ok(ValueResp { value: 2 })
    );
    assert_eq!(
        counting_contract::query(&Store::new(), QueryMsg::Incremented { value: 1 }),
        Ok(ValueResp { value: 2 })
    );
    assert_eq!(store, before);
    assert_eq!(
        counting_contract::query(&store, QueryMsg::Value {}),
        Ok(ValueResp { value: 10 })
    );
}

#[test]
fn an_uninitialized_store_is_corrupt() {
    let mut store = Store::new();
    assert_eq!(value(&store), Err(ContractError::StorageCorrupt));
    assert_eq!(
        donate(&mut store, caller("sender")),
        Err(ContractError::StorageCorrupt)
    );
    assert_eq!(
        reset(&mut store, caller("sender"), 5),
        Err(ContractError::StorageCorrupt)
    );
    assert_eq!(
        withdraw(&store, caller("owner"), coins(1, NEAR)),
        Err(ContractError::StorageCorrupt)
    );
    assert_eq!(
        withdraw_to(
            &store,
            caller("owner"),
            Some(String::from("receiver")),
            coins(1, NEAR),
            vec![]
        ),
        Err(ContractError::StorageCorrupt)
    );
    assert_eq!(store, Store::new());
}

#[test]
fn a_missing_slot_is_reported_by_the_operation_that_reads_it() {
    let mut store = Store::new();
    store.save_counter(1);
    assert_eq!(value(&store), Ok(ValueResp { value: 1 }));
    assert_eq!(
        donate(&mut store, caller("sender")),
        Err(ContractError::StorageCorrupt)
    );
    assert_eq!(reset(&mut store, caller("sender"), 5).unwrap().counter, Some(5));

    store.set_reset_requires_owner(true);
    assert_eq!(
        reset(&mut store, caller("sender"), 6),
        Err(ContractError::StorageCorrupt)
    );
    assert_eq!(value(&store), Ok(ValueResp { value: 5 }));

    let mut store = Store::new();
    store.save_owner(String::from("owner"));
    store.set_reset_requires_owner(true);
    assert_eq!(
        reset(&mut store, caller("owner"), 6),
        Err(ContractError::StorageCorrupt)
    );
}

#[test]
fn execute_runs_the_operation_that_the_message_names() {
    let mut store = initialized(0, coin(10, NEAR), true);
    let env = |receiver: Option<&str>| Env {
        balance: vec![coin(10, NEAR), coin(7, "ATOM")],
        receiver: receiver.map(String::from),
    };

    let resp = counting_contract::execute(
        &mut store,
        env(None),
        MessageInfo::new("sender", coins(10, NEAR)),
        ExecMsg::Donate {},
    )
    .unwrap();
    assert_eq!(resp.action, Action::Donate);
    assert_eq!(resp.counter, Some(1));

    let resp = counting_contract::execute(
        &mut store,
        env(None),
        caller("owner"),
        ExecMsg::Reset { value: 5 },
    )
    .unwrap();
    assert_eq!(resp.action, Action::Reset);
    assert_eq!(value(&store), Ok(ValueResp { value: 5 }));

    let resp =
        counting_contract::execute(&mut store, env(None), caller("owner"), ExecMsg::Withdraw {})
            .unwrap();
    assert_eq!(
        resp.transfer,
        Some(Transfer {
            to_address: String::from("owner"),
            amount: vec![coin(10, NEAR), coin(7, "ATOM")],
        })
    );

    let resp = counting_contract::execute(
        &mut store,
        env(Some("receiver")),
        caller("owner"),
        ExecMsg::WithdrawTo {
            receiver: String::from("receiver"),
            limit_funds: coins(4, NEAR),
        },
    )
    .unwrap();
    assert_eq!(
        resp.transfer,
        Some(Transfer {
            to_address: String::from("receiver"),
            amount: vec![coin(4, NEAR), coin(0, "ATOM")],
        })
    );

    assert_eq!(
        counting_contract::execute(
            &mut store,
            env(None),
            caller("owner"),
            ExecMsg::WithdrawTo {
                receiver: String::from(""),
                limit_funds: coins(4, NEAR),
            },
        ),
        Err(ContractError::InvalidAddress)
    );
    assert_eq!(value(&store), Ok(ValueResp { value: 5 }));
}
