use crate::identity::Address;
use vstd::prelude::*;

verus! {

/// A record as an operation sees it: where it lies and what it holds.
#[derive(Clone, Copy, Debug)]
pub struct Account<T> {
    pub key: Address,
    pub data: T,
}

/// A place where a record may lie: an operation that creates a record
/// needs the place empty, one that removes it needs the place filled.
#[derive(Clone, Copy, Debug)]
pub struct AccountSlot<T> {
    pub key: Address,
    pub data: Option<T>,
}

impl<T> AccountSlot<T> {
    /// The record in the place, if there is one.
    pub open spec fn occupant(self) -> Option<Account<T>> {
        match self.data {
            Some(data) => Some(Account { key: self.key, data }),
            None => None,
        }
    }

    /// The record in the place, if there is one.
    pub fn into_account(self) -> (account: Option<Account<T>>)
        ensures
            account == self.occupant(),
    {
        match self.data {
            Some(data) => Some(Account { key: self.key, data }),
            None => None,
        }
    }
}

/// What the token service keeps of one holding: the asset, the owner and
/// the balance.
#[derive(Clone, Copy, Debug)]
pub struct TokenAccount {
    pub mint: Address,
    pub owner: Address,
    pub amount: u64,
}

/// What the token service keeps of one asset: its decimal places.
#[derive(Clone, Copy, Debug)]
pub struct Mint {
    pub decimals: u8,
}

/// One movement of custody that the token service is asked to make.
/// Where `signer_bump` is set, the ledger record itself authorises the
/// movement, as the address derived from its tag and that bump; otherwise
/// the signer of the operation does.
#[derive(Clone, Copy, Debug)]
pub struct Transfer {
    pub from: Address,
    pub mint: Address,
    pub to: Address,
    pub authority: Address,
    pub amount: u64,
    pub decimals: u8,
    pub signer_bump: Option<u8>,
}

} // verus!
