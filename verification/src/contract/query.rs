//! The read-only views.

use vstd::prelude::*;
use crate::error::{result_view, ContractError, ErrorView};
use crate::msg::ValueResp;
use crate::state::{Store, StoreView};

verus! {

/// What `value` answers in state `s`: the counter, where it is stored.
pub open spec fn value_result(s: StoreView) -> Result<nat, ErrorView> {
    s.load_counter()
}

/// What `incremented` answers: `value + 1` wherever that still fits 64 bits.
/// No state takes part.
pub open spec fn incremented_result(value: nat) -> Result<nat, ErrorView> {
    if value < u64::MAX {
        Ok(value + 1)
    } else {
        Err(ErrorView::ArithmeticOverflow)
    }
}

/// The current counter.
pub fn value(store: &Store) -> (r: Result<ValueResp, ContractError>)
    ensures
        result_view(r) == value_result(store@),
{
    match store.load_counter() {
        Ok(value) => Ok(ValueResp { value }),
        Err(e) => Err(e),
    }
}

/// `value` plus one.
pub fn incremented(value: u64) -> (r: Result<ValueResp, ContractError>)
    ensures
        result_view(r) == incremented_result(value as nat),
{
    if value < u64::MAX {
        Ok(ValueResp { value: value + 1 })
    } else {
        Err(ContractError::ArithmeticOverflow)
    }
}

} // verus!
