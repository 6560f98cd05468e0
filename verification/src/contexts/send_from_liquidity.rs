use crate::accounts::{Account, Mint, TokenAccount, Transfer};
use crate::errors::Errors;
use crate::guard::{
    active_gate, both, holding_gate, mint_gate, relayer_gate, require_active, require_holding,
    require_relayer, require_whitelisted_mint, resolution_gate, resolve_vault, vault_resolves,
};
use crate::identity::Address;
use crate::states::BridgeState;
use vstd::prelude::*;

verus! {

/// What an outbound transfer sees: the ledger record and its vault, the
/// relayer who signs, the asset, and the token account that receives.
#[derive(Clone, Copy, Debug)]
pub struct SendFromLiquidity {
    pub bridge_state: Account<BridgeState>,
    pub vault: Account<TokenAccount>,
    pub authority: Address,
    pub mint_of_token_sent: Account<Mint>,
    pub receiver_token_account: Account<TokenAccount>,
}

impl SendFromLiquidity {
    /// The ledger record and the vault lie at their derived addresses.
    pub open spec fn resolves(self) -> bool {
        vault_resolves(self.bridge_state, self.vault.key, self.mint_of_token_sent.key)
    }

    /// The cached vault balance covers the amount.
    pub open spec fn balance_gate(self, amount: u64) -> Result<(), Errors> {
        if self.bridge_state.data.vault_amount < amount {
            Err(Errors::NotEnoughBalance)
        } else {
            Ok(())
        }
    }

    /// Whether an outbound transfer of `amount` to `receiver` is admitted:
    /// the addresses, the role, the switch of the relayer flow, the asset,
    /// the vault and what it holds, the receiving account, and the cached
    /// balance.
    pub open spec fn admission(
        self,
        resolved: bool,
        amount: u64,
        receiver: Address,
    ) -> Result<(), Errors> {
        let state = self.bridge_state.data;
        let mint = self.mint_of_token_sent.key;
        both(
            resolution_gate(resolved),
            both(
                relayer_gate(state, self.authority),
                both(
                    active_gate(state.relayer_state),
                    both(
                        mint_gate(state, mint),
                        both(
                            holding_gate(self.vault.data, self.bridge_state.key, mint, amount),
                            both(
                                holding_gate(
                                    self.receiver_token_account.data,
                                    receiver,
                                    state.mint_of_token_whitelisted,
                                    0,
                                ),
                                self.balance_gate(amount),
                            ),
                        ),
                    ),
                ),
            ),
        )
    }

    /// The movement of an outbound transfer: from the vault to the
    /// receiver's token account, on the authority of the ledger record
    /// itself.
    pub open spec fn transfer(self, amount: u64) -> Transfer {
        Transfer {
            from: self.vault.key,
            mint: self.mint_of_token_sent.key,
            to: self.receiver_token_account.key,
            authority: self.bridge_state.key,
            amount,
            decimals: self.mint_of_token_sent.data.decimals,
            signer_bump: Some(self.bridge_state.data.bump),
        }
    }

    /// The accounts after an outbound transfer of `amount`.
    pub open spec fn debited(self, amount: u64) -> SendFromLiquidity {
        SendFromLiquidity {
            bridge_state: Account {
                key: self.bridge_state.key,
                data: self.bridge_state.data.debited(amount),
            },
            ..self
        }
    }

    /// What an outbound transfer of `amount` to `receiver` returns.
    pub open spec fn outcome(
        self,
        resolved: bool,
        amount: u64,
        receiver: Address,
    ) -> Result<Transfer, Errors> {
        match self.admission(resolved, amount, receiver) {
            Ok(()) => Ok(self.transfer(amount)),
            Err(refusal) => Err(refusal),
        }
    }

    /// The accounts after an outbound transfer of `amount` to `receiver` was
    /// asked for.
    pub open spec fn after(
        self,
        resolved: bool,
        amount: u64,
        receiver: Address,
    ) -> SendFromLiquidity {
        if self.admission(resolved, amount, receiver) is Ok {
            self.debited(amount)
        } else {
            self
        }
    }

    /// Derives the addresses again and holds the accounts against them.
    pub fn resolve(&self) -> (resolved: bool)
        ensures
            resolved == self.resolves(),
    {
        resolve_vault(&self.bridge_state, &self.vault.key, &self.mint_of_token_sent.key)
    }

    /// Asks every gate of an outbound transfer, in their order.
    pub fn check(
        &self,
        resolved: bool,
        amount: u64,
        receiver: &Address,
    ) -> (admitted: Result<(), Errors>)
        ensures
            admitted == self.admission(resolved, amount, *receiver),
    {
        let state = &self.bridge_state.data;
        let mint = &self.mint_of_token_sent.key;
        if !resolved {
            return Err(Errors::AddressMismatch);
        }
        require_relayer(state, &self.authority)?;
        require_active(state.relayer_state)?;
        require_whitelisted_mint(state, mint)?;
        require_holding(&self.vault.data, &self.bridge_state.key, mint, amount)?;
        require_holding(
            &self.receiver_token_account.data,
            receiver,
            &state.mint_of_token_whitelisted,
            0,
        )?;
        if state.vault_amount < amount {
            return Err(Errors::NotEnoughBalance);
        }
        Ok(())
    }

    /// Books an outbound transfer of `amount` that the gates have admitted:
    /// the cached vault balance shrinks by the amount, and the movement to
    /// make is handed back.
    pub fn send_from_liquidity(&mut self, amount: u64) -> (transfer: Transfer)
        requires
            amount <= old(self).bridge_state.data.vault_amount,
        ensures
            *final(self) == old(self).debited(amount),
            transfer == old(self).transfer(amount),
    {
        self.bridge_state.data.vault_amount = self.bridge_state.data.vault_amount - amount;
        self.into_send_from_liquidity_context(amount)
    }

    /// The movement of the outbound transfer.
    pub fn into_send_from_liquidity_context(&self, amount: u64) -> (transfer: Transfer)
        ensures
            transfer == self.transfer(amount),
    {
        Transfer {
            from: self.vault.key,
            mint: self.mint_of_token_sent.key,
            to: self.receiver_token_account.key,
            authority: self.bridge_state.key,
            amount,
            decimals: self.mint_of_token_sent.data.decimals,
            signer_bump: Some(self.bridge_state.data.bump),
        }
    }
}

} // verus!
