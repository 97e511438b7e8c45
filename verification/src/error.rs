//! Why an operation was refused.

use vstd::prelude::*;

verus! {

/// The reasons for which an operation fails. Each failure ends the call: the
/// state is as it was and no transfer is asked for.
#[derive(Clone, Debug, PartialEq, Eq)]
pub enum ContractError {
    /// The caller is not the recorded owner, whose identity is carried along.
    Unauthorized { owner: String },
    /// The host could not resolve the receiver to an identity.
    InvalidAddress,
    /// A slot that initialization writes is missing.
    StorageCorrupt,
    /// The counter cannot be raised past the largest value it can hold.
    ArithmeticOverflow,
}

/// The mathematical value of a [`ContractError`].
pub enum ErrorView {
    Unauthorized { owner: Seq<char> },
    InvalidAddress,
    StorageCorrupt,
    ArithmeticOverflow,
}

impl View for ContractError {
    type V = ErrorView;

    open spec fn view(&self) -> ErrorView {
        match self {
            ContractError::Unauthorized { owner } => ErrorView::Unauthorized { owner: owner@ },
            ContractError::InvalidAddress => ErrorView::InvalidAddress,
            ContractError::StorageCorrupt => ErrorView::StorageCorrupt,
            ContractError::ArithmeticOverflow => ErrorView::ArithmeticOverflow,
        }
    }
}

/// The value of a result whose two sides both have a view.
pub open spec fn result_view<T: View, E: View>(r: Result<T, E>) -> Result<T::V, E::V> {
    match r {
        Ok(t) => Ok(t@),
        Err(e) => Err(e@),
    }
}

} // verus!
