//! The state store: three slots that initialization writes, and the reset
//! policy chosen with them.

use vstd::prelude::*;
use crate::coin::{Coin, CoinView};
use crate::error::{ContractError, ErrorView};

verus! {

/// The contract's persistent state. A slot is empty until it is saved; a load
/// from an empty slot fails with [`ContractError::StorageCorrupt`].
#[derive(Clone, Debug, PartialEq, Eq)]
pub struct Store {
    counter: Option<u64>,
    minimal_donation: Option<Coin>,
    owner: Option<String>,
    reset_requires_owner: bool,
}

/// The mathematical value of a [`Store`].
pub struct StoreView {
    pub counter: Option<nat>,
    pub minimal_donation: Option<CoinView>,
    pub owner: Option<Seq<char>>,
    pub reset_requires_owner: bool,
}

impl StoreView {
    /// The state before initialization: every slot empty, reset open to all.
    pub open spec fn empty() -> StoreView {
        StoreView {
            counter: None,
            minimal_donation: None,
            owner: None,
            reset_requires_owner: false,
        }
    }

    /// All three slots are filled, as they are from initialization on.
    pub open spec fn initialized(self) -> bool {
        &&& self.counter is Some
        &&& self.minimal_donation is Some
        &&& self.owner is Some
    }

    /// What a load of the counter gives.
    pub open spec fn load_counter(self) -> Result<nat, ErrorView> {
        match self.counter {
            Some(c) => Ok(c),
            None => Err(ErrorView::StorageCorrupt),
        }
    }

    /// What a load of the minimal donation gives.
    pub open spec fn load_minimal_donation(self) -> Result<CoinView, ErrorView> {
        match self.minimal_donation {
            Some(c) => Ok(c),
            None => Err(ErrorView::StorageCorrupt),
        }
    }

    /// What a load of the owner gives.
    pub open spec fn load_owner(self) -> Result<Seq<char>, ErrorView> {
        match self.owner {
            Some(o) => Ok(o),
            None => Err(ErrorView::StorageCorrupt),
        }
    }
}

impl View for Store {
    type V = StoreView;

    closed spec fn view(&self) -> StoreView {
        StoreView {
            counter: match self.counter {
                Some(c) => Some(c as nat),
                None => None,
            },
            minimal_donation: match self.minimal_donation {
                Some(c) => Some(c@),
                None => None,
            },
            owner: match self.owner {
                Some(o) => Some(o@),
                None => None,
            },
            reset_requires_owner: self.reset_requires_owner,
        }
    }
}

impl Store {
    /// A store in which nothing has been saved.
    pub fn new() -> (store: Store)
        ensures
            store@ == StoreView::empty(),
    {
        Store { counter: None, minimal_donation: None, owner: None, reset_requires_owner: false }
    }

    /// The stored counter always fits its slot.
    pub proof fn counter_in_range(&self)
        ensures
            self@.counter matches Some(c) ==> c <= u64::MAX,
    {
    }

    /// Reads the counter.
    pub fn load_counter(&self) -> (r: Result<u64, ContractError>)
        ensures
            match r {
                Ok(c) => self@.load_counter() == Ok::<nat, ErrorView>(c as nat),
                Err(e) => self@.load_counter() == Err::<nat, ErrorView>(e@),
            },
    {
        match self.counter {
            Some(c) => Ok(c),
            None => Err(ContractError::StorageCorrupt),
        }
    }

    /// Overwrites the counter.
    pub fn save_counter(&mut self, value: u64)
        ensures
            final(self)@ == (StoreView { counter: Some(value as nat), ..old(self)@ }),
    {
        self.counter = Some(value);
    }

    /// Reads the minimal donation.
    pub fn load_minimal_donation(&self) -> (r: Result<Coin, ContractError>)
        ensures
            match r {
                Ok(c) => self@.load_minimal_donation() == Ok::<CoinView, ErrorView>(c@),
                Err(e) => self@.load_minimal_donation() == Err::<CoinView, ErrorView>(e@),
            },
    {
        match &self.minimal_donation {
            Some(c) => Ok(c.duplicate()),
            None => Err(ContractError::StorageCorrupt),
        }
    }

    /// Overwrites the minimal donation.
    pub fn save_minimal_donation(&mut self, value: Coin)
        ensures
            final(self)@ == (StoreView { minimal_donation: Some(value@), ..old(self)@ }),
    {
        self.minimal_donation = Some(value);
    }

    /// Reads the owner.
    pub fn load_owner(&self) -> (r: Result<String, ContractError>)
        ensures
            match r {
                Ok(o) => self@.load_owner() == Ok::<Seq<char>, ErrorView>(o@),
                Err(e) => self@.load_owner() == Err::<Seq<char>, ErrorView>(e@),
            },
    {
        match &self.owner {
            Some(o) => Ok(o.clone()),
            None => Err(ContractError::StorageCorrupt),
        }
    }

    /// Overwrites the owner.
    pub fn save_owner(&mut self, value: String)
        ensures
            final(self)@ == (StoreView { owner: Some(value@), ..old(self)@ }),
    {
        self.owner = Some(value);
    }

    /// Whether only the owner may reset the counter.
    pub fn reset_requires_owner(&self) -> (flag: bool)
        ensures
            flag == self@.reset_requires_owner,
    {
        self.reset_requires_owner
    }

    /// Decides whether only the owner may reset the counter.
    pub fn set_reset_requires_owner(&mut self, flag: bool)
        ensures
            final(self)@ == (StoreView { reset_requires_owner: flag, ..old(self)@ }),
    {
        self.reset_requires_owner = flag;
    }
}

} // verus!
