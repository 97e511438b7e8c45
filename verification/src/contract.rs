//! The contract's operations: initialization here, the queries and the
//! mutating operations in the two modules below.

use vstd::prelude::*;
use crate::coin::{Coin, CoinView};
use crate::host::{InfoView, MessageInfo};
use crate::state::{Store, StoreView};

pub mod execute;
pub mod query;

verus! {

/// The state that initialization leaves: all three slots written, the caller
/// recorded as owner, the reset policy fixed. What stood there before is gone.
pub open spec fn instantiate_state(
    info: InfoView,
    counter: nat,
    minimal_donation: CoinView,
    reset_requires_owner: bool,
) -> StoreView {
    StoreView {
        counter: Some(counter),
        minimal_donation: Some(minimal_donation),
        owner: Some(info.sender),
        reset_requires_owner,
    }
}

/// Initializes the contract: writes the counter, the minimal donation and the
/// owner, who is the caller, and fixes whether reset is the owner's alone.
pub fn instantiate(
    store: &mut Store,
    info: MessageInfo,
    counter: u64,
    minimal_donation: Coin,
    reset_requires_owner: bool,
)
    ensures
        final(store)@ == instantiate_state(
            info@,
            counter as nat,
            minimal_donation@,
            reset_requires_owner,
        ),
        final(store)@.initialized(),
{
    store.save_counter(counter);
    store.save_minimal_donation(minimal_donation);
    store.save_owner(info.sender);
    store.set_reset_requires_owner(reset_requires_owner);
}

} // verus!
