use crate::accounts::{Account, Mint, TokenAccount, Transfer};
use crate::constants::{native_mint_bytes, native_mint_id};
use crate::errors::Errors;
use crate::guard::{
    active_gate, both, holding_gate, limits_gate, mint_gate, require_active, require_holding,
    require_whitelisted_mint, require_whole_amount, require_within_limits, resolution_gate,
    whole_amount_gate,
};
use crate::identity::{
    check_associated_token_address, check_bridge_state_address, check_whitelist_entry_address,
    is_associated_token_address, is_bridge_state_address, is_whitelist_entry_address, Address,
};
use crate::states::bridge::{is_active, State};
use crate::states::{BridgeState, WhitelistEntry};
use vstd::prelude::*;

verus! {

/// What a public deposit sees: the ledger record and its vault, the
/// depositor with the token account that pays, the depositor's whitelist
/// entry where there is one, and the accounts of the fee where one is due.
#[derive(Clone, Copy, Debug)]
pub struct SendToLiquidity {
    pub bridge_state: Account<BridgeState>,
    pub vault: Account<TokenAccount>,
    pub whitelist: Option<Account<WhitelistEntry>>,
    pub authority: Address,
    pub mint_of_token_sent: Account<Mint>,
    pub authority_token_account: Account<TokenAccount>,
    pub mint_of_fee_token_sent: Option<Account<Mint>>,
    pub fee_collector_ata: Option<Account<TokenAccount>>,
    pub fee_collector: Option<Address>,
    pub authority_fee_token_account: Option<Account<TokenAccount>>,
}

/// What a run of movements holds, in the order in which they are to be
/// made.
pub open spec fn movements(
    outcome: Result<Vec<Transfer>, Errors>,
) -> Result<Seq<Transfer>, Errors> {
    match outcome {
        Ok(transfers) => Ok(transfers@),
        Err(refusal) => Err(refusal),
    }
}

impl SendToLiquidity {
    /// All four accounts of the fee are there.
    pub open spec fn has_fee_accounts(self) -> bool {
        &&& self.authority_fee_token_account is Some
        &&& self.fee_collector_ata is Some
        &&& self.fee_collector is Some
        &&& self.mint_of_fee_token_sent is Some
    }

    /// Every supplied account lies at the address derived for it: the
    /// ledger record under its tag, the vault as the ledger record's holding
    /// of the asset, the whitelist entry as the depositor's on this ledger
    /// record, the fee collector's token account as the collector's holding
    /// of the fee asset.
    pub open spec fn resolves(self) -> bool {
        &&& is_bridge_state_address(self.bridge_state.key, self.bridge_state.data.bump)
        &&& self.bridge_state.data.vault@ == self.vault.key@
        &&& is_associated_token_address(
            self.vault.key,
            self.bridge_state.key,
            self.mint_of_token_sent.key,
        )
        &&& (self.whitelist matches Some(entry) ==> {
            &&& is_whitelist_entry_address(entry.key, self.authority, self.bridge_state.key)
            &&& entry.data.whitelist_address@ == self.authority@
        })
        &&& (self.fee_collector_ata is Some && self.fee_collector is Some
            && self.mint_of_fee_token_sent is Some ==> is_associated_token_address(
            self.fee_collector_ata.unwrap().key,
            self.fee_collector.unwrap(),
            self.mint_of_fee_token_sent.unwrap().key,
        ))
    }

    /// Whether the depositor has an entry on the whitelist. That the entry
    /// is there is all that is asked; what it holds is not read.
    pub open spec fn whitelisted(self) -> bool {
        self.whitelist is Some
    }

    /// The whitelist's gate: while the whitelist is enforced, the depositor
    /// needs an entry.
    pub open spec fn whitelist_gate(self) -> Result<(), Errors> {
        if is_active(self.bridge_state.data.whitelist_state) && !self.whitelisted() {
            Err(Errors::NotWhitelisted)
        } else {
            Ok(())
        }
    }

    /// While a fee is due, its four accounts have to be there.
    pub open spec fn fee_accounts_gate(self) -> Result<(), Errors> {
        if self.bridge_state.data.fee_amount > 0 && !self.has_fee_accounts() {
            Err(Errors::NoFeeAccountsProvided)
        } else {
            Ok(())
        }
    }

    /// What is asked of the accounts of the fee while one is due: the fee
    /// asset is the native mint, the collector is the one that the ledger
    /// record names, the collector's token account is the collector's and of
    /// the fee asset, and the depositor's fee account holds the fee, is the
    /// depositor's and of the fee asset.
    pub open spec fn fee_gate(self) -> Result<(), Errors>
        recommends
            self.has_fee_accounts(),
    {
        let state = self.bridge_state.data;
        let mint = self.mint_of_fee_token_sent.unwrap();
        let collector = self.fee_collector.unwrap();
        if state.fee_amount == 0 {
            Ok(())
        } else if mint.key@ != native_mint_bytes() {
            Err(Errors::MintMismatch)
        } else if collector@ != state.fee_collector@ {
            Err(Errors::FeeCollectorMismatch)
        } else {
            both(
                holding_gate(self.fee_collector_ata.unwrap().data, collector, mint.key, 0),
                holding_gate(
                    self.authority_fee_token_account.unwrap().data,
                    self.authority,
                    mint.key,
                    state.fee_amount,
                ),
            )
        }
    }

    /// The cached vault balance can take the amount.
    pub open spec fn balance_gate(self, amount: u64) -> Result<(), Errors> {
        if self.bridge_state.data.vault_amount + amount > u64::MAX {
            Err(Errors::BalanceOverflow)
        } else {
            Ok(())
        }
    }

    /// What is asked of the custody once the amount is found legal: the
    /// asset is the whitelisted one, the vault is the ledger record's own and
    /// of that asset, the paying account holds the amount, is the depositor's
    /// and of that asset, the accounts of the fee are in order, and the
    /// cached balance has room.
    pub open spec fn custody_gate(self, amount: u64) -> Result<(), Errors> {
        let state = self.bridge_state.data;
        both(
            mint_gate(state, self.mint_of_token_sent.key),
            both(
                holding_gate(
                    self.vault.data,
                    self.bridge_state.key,
                    self.mint_of_token_sent.key,
                    0,
                ),
                both(
                    holding_gate(
                        self.authority_token_account.data,
                        self.authority,
                        state.mint_of_token_whitelisted,
                        amount,
                    ),
                    both(self.fee_gate(), self.balance_gate(amount)),
                ),
            ),
        )
    }

    /// Whether a deposit of `amount` is admitted, and if not, why. The gates
    /// stand in the order in which they are asked: the addresses, the switch
    /// of the public flow, the whole amount, the whitelist, the presence of
    /// the fee accounts, the deposit limits, then the custody.
    pub open spec fn admission(self, resolved: bool, amount: u64) -> Result<(), Errors> {
        let state = self.bridge_state.data;
        both(
            resolution_gate(resolved),
            both(
                active_gate(state.public_state),
                both(
                    whole_amount_gate(amount, self.mint_of_token_sent.data.decimals),
                    both(
                        self.whitelist_gate(),
                        both(
                            self.fee_accounts_gate(),
                            both(limits_gate(state, amount), self.custody_gate(amount)),
                        ),
                    ),
                ),
            ),
        )
    }

    /// The movement of the principal: from the depositor's token account to
    /// the vault, on the depositor's own authority.
    pub open spec fn principal_transfer(self, amount: u64) -> Transfer {
        Transfer {
            from: self.authority_token_account.key,
            mint: self.mint_of_token_sent.key,
            to: self.vault.key,
            authority: self.authority,
            amount,
            decimals: self.mint_of_token_sent.data.decimals,
            signer_bump: None,
        }
    }

    /// The movement of the fee: from the depositor's fee account to the
    /// collector's token account, on the depositor's own authority.
    pub open spec fn fee_transfer(self) -> Transfer
        recommends
            self.has_fee_accounts(),
    {
        Transfer {
            from: self.authority_fee_token_account.unwrap().key,
            mint: self.mint_of_fee_token_sent.unwrap().key,
            to: self.fee_collector_ata.unwrap().key,
            authority: self.authority,
            amount: self.bridge_state.data.fee_amount,
            decimals: self.mint_of_fee_token_sent.unwrap().data.decimals,
            signer_bump: None,
        }
    }

    /// The movements of a deposit of `amount`, in the order in which they
    /// are to be made: the fee, where one is due, strictly before the
    /// principal. Where a movement fails, none after it is made and the
    /// deposit as a whole has not happened.
    pub open spec fn transfers(self, amount: u64) -> Seq<Transfer> {
        if self.bridge_state.data.fee_amount > 0 {
            seq![self.fee_transfer(), self.principal_transfer(amount)]
        } else {
            seq![self.principal_transfer(amount)]
        }
    }

    /// The accounts after a deposit of `amount`: the cached vault balance
    /// has grown by the amount and nothing else has changed.
    pub open spec fn credited(self, amount: u64) -> SendToLiquidity {
        SendToLiquidity {
            bridge_state: Account {
                key: self.bridge_state.key,
                data: self.bridge_state.data.credited(amount),
            },
            ..self
        }
    }

    /// What a deposit of `amount` returns.
    pub open spec fn outcome(self, resolved: bool, amount: u64) -> Result<Seq<Transfer>, Errors> {
        match self.admission(resolved, amount) {
            Ok(()) => Ok(self.transfers(amount)),
            Err(refusal) => Err(refusal),
        }
    }

    /// The accounts after a deposit of `amount` was asked for.
    pub open spec fn after(self, resolved: bool, amount: u64) -> SendToLiquidity {
        if self.admission(resolved, amount) is Ok {
            self.credited(amount)
        } else {
            self
        }
    }

    /// Whether the depositor has an entry on the whitelist.
    pub fn is_whitelisted(&self) -> (whitelisted: bool)
        ensures
            whitelisted == self.whitelisted(),
    {
        self.whitelist.is_some()
    }

    /// Derives every address again and holds the supplied accounts against
    /// them.
    pub fn resolve(&self) -> (resolved: bool)
        ensures
            resolved == self.resolves(),
    {
        if !check_bridge_state_address(&self.bridge_state.key, self.bridge_state.data.bump) {
            return false;
        }
        if self.bridge_state.data.vault != self.vault.key {
            return false;
        }
        if !check_associated_token_address(
            &self.vault.key,
            &self.bridge_state.key,
            &self.mint_of_token_sent.key,
        ) {
            return false;
        }
        if let Some(entry) = self.whitelist {
            if !check_whitelist_entry_address(&entry.key, &self.authority, &self.bridge_state.key) {
                return false;
            }
            if entry.data.whitelist_address != self.authority {
                return false;
            }
        }
        if let Some(ata) = self.fee_collector_ata {
            if let Some(collector) = self.fee_collector {
                if let Some(mint) = self.mint_of_fee_token_sent {
                    if !check_associated_token_address(&ata.key, &collector, &mint.key) {
                        return false;
                    }
                }
            }
        }
        true
    }

    /// Asks the gates of the fee.
    fn check_fee(&self) -> (admitted: Result<(), Errors>)
        requires
            self.has_fee_accounts(),
        ensures
            admitted == self.fee_gate(),
    {
        let state = &self.bridge_state.data;
        if state.fee_amount == 0 {
            return Ok(());
        }
        let mint = self.mint_of_fee_token_sent.unwrap();
        let collector = self.fee_collector.unwrap();
        if mint.key != native_mint_id() {
            return Err(Errors::MintMismatch);
        }
        if collector != state.fee_collector {
            return Err(Errors::FeeCollectorMismatch);
        }
        require_holding(&self.fee_collector_ata.unwrap().data, &collector, &mint.key, 0)?;
        require_holding(
            &self.authority_fee_token_account.unwrap().data,
            &self.authority,
            &mint.key,
            state.fee_amount,
        )
    }

    /// Asks every gate of a deposit of `amount`, in their order. `resolved`
    /// says whether the accounts lie at their derived addresses.
    pub fn check(&self, resolved: bool, amount: u64) -> (admitted: Result<(), Errors>)
        ensures
            admitted == self.admission(resolved, amount),
    {
        let state = &self.bridge_state.data;
        if !resolved {
            return Err(Errors::AddressMismatch);
        }
        require_active(state.public_state)?;
        require_whole_amount(amount, self.mint_of_token_sent.data.decimals)?;
        if state.whitelist_state == State::Active.to_code() && !self.is_whitelisted() {
            return Err(Errors::NotWhitelisted);
        }
        let has_fee_accounts = self.authority_fee_token_account.is_some()
            && self.fee_collector_ata.is_some() && self.fee_collector.is_some()
            && self.mint_of_fee_token_sent.is_some();
        if state.fee_amount > 0 && !has_fee_accounts {
            return Err(Errors::NoFeeAccountsProvided);
        }
        require_within_limits(state, amount)?;
        require_whitelisted_mint(state, &self.mint_of_token_sent.key)?;
        require_holding(&self.vault.data, &self.bridge_state.key, &self.mint_of_token_sent.key, 0)?;
        require_holding(
            &self.authority_token_account.data,
            &self.authority,
            &state.mint_of_token_whitelisted,
            amount,
        )?;
        if state.fee_amount > 0 {
            self.check_fee()?;
        }
        if amount > u64::MAX - state.vault_amount {
            return Err(Errors::BalanceOverflow);
        }
        Ok(())
    }

    /// Books a deposit of `amount` that the gates have admitted: the cached
    /// vault balance grows by the amount, and the movements to make are
    /// handed back in their order, the fee before the principal.
    pub fn send_to_liquidity(&mut self, amount: u64) -> (transfers: Vec<Transfer>)
        requires
            old(self).bridge_state.data.vault_amount + amount <= u64::MAX,
            old(self).bridge_state.data.fee_amount > 0 ==> old(self).has_fee_accounts(),
        ensures
            *final(self) == old(self).credited(amount),
            transfers@ == old(self).transfers(amount),
    {
        let mut transfers: Vec<Transfer> = Vec::new();
        if self.bridge_state.data.fee_amount > 0 {
            transfers.push(self.into_send_fee_context());
        }
        self.bridge_state.data.vault_amount = self.bridge_state.data.vault_amount + amount;
        transfers.push(self.into_send_to_liquidity_context(amount));
        assert(transfers@ =~= old(self).transfers(amount));
        transfers
    }

    /// The movement of the principal.
    pub fn into_send_to_liquidity_context(&self, amount: u64) -> (transfer: Transfer)
        ensures
            transfer == self.principal_transfer(amount),
    {
        Transfer {
            from: self.authority_token_account.key,
            mint: self.mint_of_token_sent.key,
            to: self.vault.key,
            authority: self.authority,
            amount,
            decimals: self.mint_of_token_sent.data.decimals,
            signer_bump: None,
        }
    }

    /// The movement of the fee.
    pub fn into_send_fee_context(&self) -> (transfer: Transfer)
        requires
            self.has_fee_accounts(),
        ensures
            transfer == self.fee_transfer(),
    {
        Transfer {
            from: self.authority_fee_token_account.unwrap().key,
            mint: self.mint_of_fee_token_sent.unwrap().key,
            to: self.fee_collector_ata.unwrap().key,
            authority: self.authority,
            amount: self.bridge_state.data.fee_amount,
            decimals: self.mint_of_fee_token_sent.unwrap().data.decimals,
            signer_bump: None,
        }
    }
}

} // verus!
