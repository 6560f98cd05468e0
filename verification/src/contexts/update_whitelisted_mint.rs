use crate::accounts::{Account, Mint, TokenAccount};
use crate::errors::Errors;
use crate::guard::{
    administrator_gate, both, holding_gate, ledger_resolves, require_administrator,
    require_holding, resolution_gate, resolve_ledger,
};
use crate::identity::{check_associated_token_address, is_associated_token_address, Address};
use crate::states::BridgeState;
use vstd::prelude::*;

verus! {

/// What the change of the whitelisted asset sees: the ledger record, the
/// record's vault of the new asset, the new asset and the signer.
#[derive(Clone, Copy, Debug)]
pub struct UpdateWhitelistedMint {
    pub bridge_state: Account<BridgeState>,
    pub vault: Account<TokenAccount>,
    pub mint_of_token_whitelisted: Account<Mint>,
    pub authority: Address,
}

impl UpdateWhitelistedMint {
    /// The ledger record lies at its derived address, and the vault is the
    /// record's holding of the new asset.
    pub open spec fn resolves(self) -> bool {
        &&& ledger_resolves(self.bridge_state)
        &&& is_associated_token_address(
            self.vault.key,
            self.bridge_state.key,
            self.mint_of_token_whitelisted.key,
        )
    }

    /// Whether the asset may be changed: the addresses, the role, then the
    /// vault, which has to be the record's own and of the new asset.
    pub open spec fn admission(self, resolved: bool) -> Result<(), Errors> {
        both(
            resolution_gate(resolved),
            both(
                administrator_gate(self.authority),
                holding_gate(
                    self.vault.data,
                    self.bridge_state.key,
                    self.mint_of_token_whitelisted.key,
                    0,
                ),
            ),
        )
    }

    /// The accounts after the change: the record names the new asset and
    /// its vault, and the cached balance is what that vault holds.
    pub open spec fn repointed(self) -> UpdateWhitelistedMint {
        UpdateWhitelistedMint {
            bridge_state: Account {
                key: self.bridge_state.key,
                data: BridgeState {
                    mint_of_token_whitelisted: self.mint_of_token_whitelisted.key,
                    vault: self.vault.key,
                    vault_amount: self.vault.data.amount,
                    ..self.bridge_state.data
                },
            },
            ..self
        }
    }

    /// Derives the addresses again and holds the accounts against them.
    pub fn resolve(&self) -> (resolved: bool)
        ensures
            resolved == self.resolves(),
    {
        resolve_ledger(&self.bridge_state) && check_associated_token_address(
            &self.vault.key,
            &self.bridge_state.key,
            &self.mint_of_token_whitelisted.key,
        )
    }

    /// Asks the gates of the change, in their order.
    pub fn check(&self, resolved: bool) -> (admitted: Result<(), Errors>)
        ensures
            admitted == self.admission(resolved),
    {
        if !resolved {
            return Err(Errors::AddressMismatch);
        }
        require_administrator(&self.authority)?;
        require_holding(
            &self.vault.data,
            &self.bridge_state.key,
            &self.mint_of_token_whitelisted.key,
            0,
        )
    }

    /// Points the ledger record at the new asset and its vault, and takes
    /// the cached balance from what that vault holds.
    pub fn update_whitelisted_mint(&mut self)
        ensures
            *final(self) == old(self).repointed(),
    {
        self.bridge_state.data.mint_of_token_whitelisted = self.mint_of_token_whitelisted.key;
        self.bridge_state.data.vault = self.vault.key;
        self.bridge_state.data.vault_amount = self.vault.data.amount;
    }
}

} // verus!
