use crate::accounts::{AccountSlot, Account, Mint};
use crate::constants::{id, program_bytes};
use crate::errors::Errors;
use crate::guard::{administrator_gate, both, require_administrator, resolution_gate};
use crate::identity::{
    bridge_state_seeds, check_associated_token_address, find_bridge_state_address,
    is_associated_token_address, program_address, Address,
};
use crate::states::bridge::State;
use crate::states::BridgeState;
use vstd::prelude::*;

verus! {

/// What the creation of the ledger record sees: the place of the record,
/// the vault that it will name, the asset to whitelist and the signer.
#[derive(Clone, Copy, Debug)]
pub struct InitializeContract {
    pub bridge_state: AccountSlot<BridgeState>,
    pub vault: Address,
    pub mint_of_token_whitelisted: Account<Mint>,
    pub authority: Address,
}

/// The bump with which the ledger record's address was derived.
#[derive(Clone, Copy, Debug)]
pub struct InitializeContractBumps {
    pub bridge_state: u8,
}

impl InitializeContract {
    /// The bump of the ledger record, where the place of the record lies at
    /// the address derived for it and the vault is the record's holding of
    /// the asset; `None` where one of them does not.
    pub open spec fn resolved_bump(self) -> Option<u8> {
        match program_address(bridge_state_seeds(), program_bytes()) {
            Some((address, bump)) => if address == self.bridge_state.key@
                && is_associated_token_address(
                self.vault,
                self.bridge_state.key,
                self.mint_of_token_whitelisted.key,
            ) {
                Some(bump)
            } else {
                None
            },
            None => None,
        }
    }

    /// The record's place is still empty.
    pub open spec fn vacancy_gate(self) -> Result<(), Errors> {
        if self.bridge_state.data is Some {
            Err(Errors::AccountAlreadyExists)
        } else {
            Ok(())
        }
    }

    /// Whether the record may be created: the addresses, the role, then the
    /// empty place.
    pub open spec fn admission(self, resolved: bool) -> Result<(), Errors> {
        both(
            resolution_gate(resolved),
            both(administrator_gate(self.authority), self.vacancy_gate()),
        )
    }

    /// The record as it is created: the given configuration, an empty cached
    /// balance and all three switches off.
    pub open spec fn initial_state(
        self,
        bump: u8,
        relayer_pubkey: Address,
        fee_collector: Address,
        fee_amount: u64,
        minimum_deposit: u64,
        maximum_deposit: u64,
    ) -> BridgeState {
        BridgeState {
            bump,
            mint_of_token_whitelisted: self.mint_of_token_whitelisted.key,
            relayer_pubkey,
            vault: self.vault,
            fee_collector,
            vault_amount: 0,
            relayer_state: State::Inactive.code(),
            public_state: State::Inactive.code(),
            whitelist_state: State::Inactive.code(),
            minimum_deposit,
            maximum_deposit,
            fee_amount,
        }
    }

    /// The accounts once the record `state` lies in its place.
    pub open spec fn holding(self, state: BridgeState) -> InitializeContract {
        InitializeContract {
            bridge_state: AccountSlot { key: self.bridge_state.key, data: Some(state) },
            ..self
        }
    }

    /// The accounts after the creation was asked for, where
    /// `resolved_bump` is the bump that the addresses resolved to.
    pub open spec fn after(
        self,
        resolved_bump: Option<u8>,
        relayer_pubkey: Address,
        fee_collector: Address,
        fee_amount: u64,
        minimum_deposit: u64,
        maximum_deposit: u64,
    ) -> InitializeContract {
        match resolved_bump {
            Some(bump) => if self.admission(true) is Ok {
                self.holding(
                    self.initial_state(
                        bump,
                        relayer_pubkey,
                        fee_collector,
                        fee_amount,
                        minimum_deposit,
                        maximum_deposit,
                    ),
                )
            } else {
                self
            },
            None => self,
        }
    }

    /// Derives the addresses again and holds the accounts against them;
    /// hands back the bump of the ledger record where they agree.
    pub fn resolve(&self) -> (bumps: Option<InitializeContractBumps>)
        ensures
            match bumps {
                Some(found) => self.resolved_bump() == Some(found.bridge_state),
                None => self.resolved_bump() is None,
            },
    {
        let program = id();
        match find_bridge_state_address(&program) {
            Some((address, bump)) => {
                if address == self.bridge_state.key && check_associated_token_address(
                    &self.vault,
                    &self.bridge_state.key,
                    &self.mint_of_token_whitelisted.key,
                ) {
                    Some(InitializeContractBumps { bridge_state: bump })
                } else {
                    None
                }
            },
            None => None,
        }
    }

    /// Asks the gates of the creation, in their order.
    pub fn check(&self, resolved: bool) -> (admitted: Result<(), Errors>)
        ensures
            admitted == self.admission(resolved),
    {
        if !resolved {
            return Err(Errors::AddressMismatch);
        }
        require_administrator(&self.authority)?;
        if self.bridge_state.data.is_some() {
            return Err(Errors::AccountAlreadyExists);
        }
        Ok(())
    }

    /// Writes the ledger record into its place.
    pub fn initialize_contract(
        &mut self,
        bumps: &InitializeContractBumps,
        relayer_pubkey: Address,
        fee_collector: Address,
        fee_amount: u64,
        minimum_deposit: u64,
        maximum_deposit: u64,
    )
        ensures
            *final(self) == old(self).holding(
                old(self).initial_state(
                    bumps.bridge_state,
                    relayer_pubkey,
                    fee_collector,
                    fee_amount,
                    minimum_deposit,
                    maximum_deposit,
                ),
            ),
    {
        self.bridge_state.data = Some(
            BridgeState {
                bump: bumps.bridge_state,
                mint_of_token_whitelisted: self.mint_of_token_whitelisted.key,
                relayer_pubkey,
                vault: self.vault,
                fee_collector,
                vault_amount: 0u64,
                relayer_state: State::Inactive.to_code(),
                public_state: State::Inactive.to_code(),
                whitelist_state: State::Inactive.to_code(),
                minimum_deposit,
                maximum_deposit,
                fee_amount,
            },
        );
    }
}

} // verus!
