use crate::accounts::{Account, TokenAccount};
use crate::constants::{admin_bytes, admin_pubkey};
use crate::errors::Errors;
use crate::identity::{
    check_associated_token_address, check_bridge_state_address, is_associated_token_address,
    is_bridge_state_address, Address,
};
use crate::states::bridge::{is_active, BridgeState, State};
use crate::utils::{check_amount, is_whole_amount};
use vstd::prelude::*;

verus! {

/// Two gates one after the other: the refusal of the first, else what the
/// second says.
pub open spec fn both(first: Result<(), Errors>, second: Result<(), Errors>) -> Result<(), Errors> {
    if first is Err {
        first
    } else {
        second
    }
}

/// Admits the operation whose accounts lie at their derived addresses.
pub open spec fn resolution_gate(resolved: bool) -> Result<(), Errors> {
    if resolved {
        Ok(())
    } else {
        Err(Errors::AddressMismatch)
    }
}

/// Whether `authority` is the administrator.
pub open spec fn is_administrator(authority: Address) -> bool {
    authority@ == admin_bytes()
}

/// Whether `authority` is the relayer that the ledger record names.
pub open spec fn is_relayer(state: BridgeState, authority: Address) -> bool {
    authority@ == state.relayer_pubkey@
}

/// Admits the administrator and nobody else.
pub open spec fn administrator_gate(authority: Address) -> Result<(), Errors> {
    if is_administrator(authority) {
        Ok(())
    } else {
        Err(Errors::NotPrivileged)
    }
}

/// Admits the relayer and nobody else.
pub open spec fn relayer_gate(state: BridgeState, authority: Address) -> Result<(), Errors> {
    if is_relayer(state, authority) {
        Ok(())
    } else {
        Err(Errors::NotPrivileged)
    }
}

/// Admits the administrator and the relayer.
pub open spec fn administrator_or_relayer_gate(
    state: BridgeState,
    authority: Address,
) -> Result<(), Errors> {
    if is_administrator(authority) || is_relayer(state, authority) {
        Ok(())
    } else {
        Err(Errors::NotPrivileged)
    }
}

/// Admits an operation while the switch of its flow is on.
pub open spec fn active_gate(flag: u8) -> Result<(), Errors> {
    if is_active(flag) {
        Ok(())
    } else {
        Err(Errors::ProgramIsPaused)
    }
}

/// Admits an amount that is a whole number of units.
pub open spec fn whole_amount_gate(amount: u64, decimals: u8) -> Result<(), Errors> {
    if is_whole_amount(amount, decimals) {
        Ok(())
    } else {
        Err(Errors::NotWholeNumber)
    }
}

/// Whether `amount` lies within the deposit limits, both included.
pub open spec fn within_limits(state: BridgeState, amount: u64) -> bool {
    state.minimum_deposit <= amount <= state.maximum_deposit
}

/// Admits an amount within the deposit limits.
pub open spec fn limits_gate(state: BridgeState, amount: u64) -> Result<(), Errors> {
    if within_limits(state, amount) {
        Ok(())
    } else {
        Err(Errors::PaymentAmountNotInAcceptedRange)
    }
}

/// Admits the mint of the whitelisted asset and no other.
pub open spec fn mint_gate(state: BridgeState, mint: Address) -> Result<(), Errors> {
    if mint@ == state.mint_of_token_whitelisted@ {
        Ok(())
    } else {
        Err(Errors::MintMismatch)
    }
}

/// Admits a token account that holds at least `amount`, belongs to `owner`
/// and is of the asset `mint`; the three are asked in this order.
pub open spec fn holding_gate(
    account: TokenAccount,
    owner: Address,
    mint: Address,
    amount: u64,
) -> Result<(), Errors> {
    if account.amount < amount {
        Err(Errors::NotEnoughBalance)
    } else if account.owner@ != owner@ {
        Err(Errors::OwnerMismatch)
    } else if account.mint@ != mint@ {
        Err(Errors::MintMismatch)
    } else {
        Ok(())
    }
}

/// Asks whether `authority` is the administrator.
pub fn require_administrator(authority: &Address) -> (admitted: Result<(), Errors>)
    ensures
        admitted == administrator_gate(*authority),
{
    if *authority == admin_pubkey() {
        Ok(())
    } else {
        Err(Errors::NotPrivileged)
    }
}

/// Asks whether `authority` is the relayer.
pub fn require_relayer(state: &BridgeState, authority: &Address) -> (admitted: Result<(), Errors>)
    ensures
        admitted == relayer_gate(*state, *authority),
{
    if *authority == state.relayer_pubkey {
        Ok(())
    } else {
        Err(Errors::NotPrivileged)
    }
}

/// Asks whether `authority` is the administrator or the relayer.
pub fn require_administrator_or_relayer(
    state: &BridgeState,
    authority: &Address,
) -> (admitted: Result<(), Errors>)
    ensures
        admitted == administrator_or_relayer_gate(*state, *authority),
{
    if *authority == admin_pubkey() || *authority == state.relayer_pubkey {
        Ok(())
    } else {
        Err(Errors::NotPrivileged)
    }
}

/// Asks whether the switch of a flow is on.
pub fn require_active(flag: u8) -> (admitted: Result<(), Errors>)
    ensures
        admitted == active_gate(flag),
{
    if flag == State::Active.to_code() {
        Ok(())
    } else {
        Err(Errors::ProgramIsPaused)
    }
}

/// Asks whether `amount` is a whole number of units.
pub fn require_whole_amount(amount: u64, decimals: u8) -> (admitted: Result<(), Errors>)
    ensures
        admitted == whole_amount_gate(amount, decimals),
{
    if check_amount(amount, decimals) {
        Ok(())
    } else {
        Err(Errors::NotWholeNumber)
    }
}

/// Asks whether `amount` lies within the deposit limits.
pub fn require_within_limits(state: &BridgeState, amount: u64) -> (admitted: Result<(), Errors>)
    ensures
        admitted == limits_gate(*state, amount),
{
    if state.minimum_deposit <= amount && amount <= state.maximum_deposit {
        Ok(())
    } else {
        Err(Errors::PaymentAmountNotInAcceptedRange)
    }
}

/// Asks whether `mint` is the whitelisted asset.
pub fn require_whitelisted_mint(
    state: &BridgeState,
    mint: &Address,
) -> (admitted: Result<(), Errors>)
    ensures
        admitted == mint_gate(*state, *mint),
{
    if *mint == state.mint_of_token_whitelisted {
        Ok(())
    } else {
        Err(Errors::MintMismatch)
    }
}

/// Asks whether a token account can pay or receive as it should.
pub fn require_holding(
    account: &TokenAccount,
    owner: &Address,
    mint: &Address,
    amount: u64,
) -> (admitted: Result<(), Errors>)
    ensures
        admitted == holding_gate(*account, *owner, *mint, amount),
{
    if account.amount < amount {
        Err(Errors::NotEnoughBalance)
    } else if account.owner != *owner {
        Err(Errors::OwnerMismatch)
    } else if account.mint != *mint {
        Err(Errors::MintMismatch)
    } else {
        Ok(())
    }
}

/// The ledger record lies at the address derived for it.
pub open spec fn ledger_resolves(bridge_state: Account<BridgeState>) -> bool {
    is_bridge_state_address(bridge_state.key, bridge_state.data.bump)
}

/// The ledger record lies at its derived address, and `vault` is both the
/// vault that the record names and the record's holding of the asset `mint`.
pub open spec fn vault_resolves(
    bridge_state: Account<BridgeState>,
    vault: Address,
    mint: Address,
) -> bool {
    &&& ledger_resolves(bridge_state)
    &&& bridge_state.data.vault@ == vault@
    &&& is_associated_token_address(vault, bridge_state.key, mint)
}

/// What an operation of the administrator on the ledger record alone is
/// asked: the record's address, then the role.
pub open spec fn administrator_admission(authority: Address, resolved: bool) -> Result<(), Errors> {
    both(resolution_gate(resolved), administrator_gate(authority))
}

/// Derives the ledger record's address again and holds the record against
/// it.
pub fn resolve_ledger(bridge_state: &Account<BridgeState>) -> (resolved: bool)
    ensures
        resolved == ledger_resolves(*bridge_state),
{
    check_bridge_state_address(&bridge_state.key, bridge_state.data.bump)
}

/// Derives the addresses of the ledger record and of its vault again and
/// holds both against them.
pub fn resolve_vault(
    bridge_state: &Account<BridgeState>,
    vault: &Address,
    mint: &Address,
) -> (resolved: bool)
    ensures
        resolved == vault_resolves(*bridge_state, *vault, *mint),
{
    resolve_ledger(bridge_state) && bridge_state.data.vault == *vault
        && check_associated_token_address(vault, &bridge_state.key, mint)
}

/// Asks the gates of an operation of the administrator on the ledger
/// record alone.
pub fn check_administrator(authority: &Address, resolved: bool) -> (admitted: Result<(), Errors>)
    ensures
        admitted == administrator_admission(*authority, resolved),
{
    if !resolved {
        return Err(Errors::AddressMismatch);
    }
    require_administrator(authority)
}

} // verus!
