use crate::identity::Address;
use vstd::prelude::*;

verus! {

/// The ledger record: the configuration, the roles and the cached vault
/// balance of one bridge. It is created once and never removed.
#[derive(Clone, Copy, Debug)]
pub struct BridgeState {
    pub bump: u8,
    pub mint_of_token_whitelisted: Address,
    pub relayer_pubkey: Address,
    pub vault: Address,
    pub fee_collector: Address,
    pub vault_amount: u64,
    pub relayer_state: u8,
    pub public_state: u8,
    pub whitelist_state: u8,
    pub minimum_deposit: u64,
    pub maximum_deposit: u64,
    pub fee_amount: u64,
}

/// One of the three switches of the ledger record.
#[derive(Clone, Copy, Debug, PartialEq, Eq, Structural)]
pub enum State {
    Inactive,
    Active,
}

impl State {
    /// The code under which a switch is stored.
    pub open spec fn code(self) -> u8 {
        match self {
            State::Inactive => 0,
            State::Active => 1,
        }
    }

    /// The code under which the switch is stored.
    pub fn to_code(&self) -> (code: u8)
        ensures
            code == self.code(),
    {
        match self {
            State::Inactive => 0,
            State::Active => 1,
        }
    }
}

/// Whether a stored switch is on.
pub open spec fn is_active(flag: u8) -> bool {
    flag == State::Active.code()
}

/// Whether a stored switch holds one of its two values.
pub open spec fn is_state_code(flag: u8) -> bool {
    flag == State::Inactive.code() || flag == State::Active.code()
}

impl BridgeState {
    /// Each of the three switches holds one of its two values.
    pub open spec fn well_formed(self) -> bool {
        &&& is_state_code(self.relayer_state)
        &&& is_state_code(self.public_state)
        &&& is_state_code(self.whitelist_state)
    }

    /// The record with `amount` more in the cached vault balance.
    pub open spec fn credited(self, amount: u64) -> BridgeState
        recommends
            self.vault_amount + amount <= u64::MAX,
    {
        BridgeState { vault_amount: (self.vault_amount + amount) as u64, ..self }
    }

    /// The record with `amount` less in the cached vault balance.
    pub open spec fn debited(self, amount: u64) -> BridgeState
        recommends
            amount <= self.vault_amount,
    {
        BridgeState { vault_amount: (self.vault_amount - amount) as u64, ..self }
    }
}

} // verus!
