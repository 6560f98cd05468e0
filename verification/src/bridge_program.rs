use crate::accounts::Transfer;
use crate::contexts::send_to_liquidity::movements;
use crate::contexts::{
    AddLiquidity, AddToWhitelist, InitializeContract, PublicState,
    RelayerState, RemoveFromWhitelist, RemoveLiquidity, SendFromLiquidity, SendToLiquidity,
    UpdateFeeCollector, UpdateLimitsOrFee, UpdateRelayer, UpdateWhitelistedMint, WhitelistState,
};
use crate::errors::Errors;
use crate::guard::{administrator_admission, check_administrator, ledger_resolves, resolve_ledger};
use crate::identity::Address;
use crate::states::bridge::State;
use vstd::prelude::*;

verus! {

/// Creates the ledger record: configured as given, with an empty cached
/// balance and all three flows switched off. Only the administrator may, and
/// only once.
pub fn initialize_contract(
    ctx: &mut InitializeContract,
    relayer_pubkey: Address,
    fee_collector: Address,
    fee_amount: u64,
    minimum_deposit: u64,
    maximum_deposit: u64,
) -> (outcome: Result<(), Errors>)
    ensures
        outcome == old(ctx).admission(old(ctx).resolved_bump() is Some),
        *final(ctx) == old(ctx).after(
            old(ctx).resolved_bump(),
            relayer_pubkey,
            fee_collector,
            fee_amount,
            minimum_deposit,
            maximum_deposit,
        ),
{
    match ctx.resolve() {
        Some(bumps) => {
            ctx.check(true)?;
            ctx.initialize_contract(
                &bumps,
                relayer_pubkey,
                fee_collector,
                fee_amount,
                minimum_deposit,
                maximum_deposit,
            );
            Ok(())
        },
        None => ctx.check(false),
    }
}

/// Names a new fee collector. Only the administrator may.
pub fn update_fee_collector(
    ctx: &mut UpdateFeeCollector,
    fee_collector: Address,
) -> (outcome: Result<(), Errors>)
    ensures
        outcome == administrator_admission(old(ctx).authority, ledger_resolves(old(ctx).bridge_state)),
        *final(ctx) == if outcome is Ok {
            old(ctx).with_fee_collector(fee_collector)
        } else {
            *old(ctx)
        },
{
    let resolved = resolve_ledger(&ctx.bridge_state);
    check_administrator(&ctx.authority, resolved)?;
    ctx.update_fee_collector(fee_collector);
    Ok(())
}

/// Names a new relayer. Only the administrator may.
pub fn update_relayer(
    ctx: &mut UpdateRelayer,
    relayer_pubkey: Address,
) -> (outcome: Result<(), Errors>)
    ensures
        outcome == administrator_admission(old(ctx).authority, ledger_resolves(old(ctx).bridge_state)),
        *final(ctx) == if outcome is Ok {
            old(ctx).with_relayer(relayer_pubkey)
        } else {
            *old(ctx)
        },
{
    let resolved = resolve_ledger(&ctx.bridge_state);
    check_administrator(&ctx.authority, resolved)?;
    ctx.update_relayer(relayer_pubkey);
    Ok(())
}

/// Whitelists another asset: the ledger record then names the asset and
/// its vault, and the cached balance is what that vault holds. Only the
/// administrator may.
pub fn update_whitelisted_mint(ctx: &mut UpdateWhitelistedMint) -> (outcome: Result<(), Errors>)
    ensures
        outcome == old(ctx).admission(old(ctx).resolves()),
        *final(ctx) == if outcome is Ok {
            old(ctx).repointed()
        } else {
            *old(ctx)
        },
{
    let resolved = ctx.resolve();
    ctx.check(resolved)?;
    ctx.update_whitelisted_mint();
    Ok(())
}

/// Tops the vault up by `amount` from the administrator's own holding.
/// Hands back the movement to make.
pub fn add_liquidity(ctx: &mut AddLiquidity, amount: u64) -> (outcome: Result<Transfer, Errors>)
    ensures
        outcome == old(ctx).outcome(old(ctx).resolves(), amount),
        *final(ctx) == old(ctx).after(old(ctx).resolves(), amount),
{
    let resolved = ctx.resolve();
    ctx.check(resolved, amount)?;
    Ok(ctx.add_liquidity(amount))
}

/// Drains `amount` from the vault into the administrator's own holding.
/// Hands back the movement to make.
pub fn remove_liquidity(
    ctx: &mut RemoveLiquidity,
    amount: u64,
) -> (outcome: Result<Transfer, Errors>)
    ensures
        outcome == old(ctx).outcome(old(ctx).resolves(), amount),
        *final(ctx) == old(ctx).after(old(ctx).resolves(), amount),
{
    let resolved = ctx.resolve();
    ctx.check(resolved, amount)?;
    Ok(ctx.remove_liquidity(amount))
}

/// Replaces both deposit limits together. Only the administrator may.
pub fn set_deposit_limits(
    ctx: &mut UpdateLimitsOrFee,
    minimum_deposit: u64,
    maximum_deposit: u64,
) -> (outcome: Result<(), Errors>)
    ensures
        outcome == administrator_admission(old(ctx).authority, ledger_resolves(old(ctx).bridge_state)),
        *final(ctx) == if outcome is Ok {
            old(ctx).with_deposit_limits(minimum_deposit, maximum_deposit)
        } else {
            *old(ctx)
        },
{
    let resolved = resolve_ledger(&ctx.bridge_state);
    check_administrator(&ctx.authority, resolved)?;
    ctx.set_deposit_limits(minimum_deposit, maximum_deposit);
    Ok(())
}

/// Replaces the fee that a deposit is charged. Only the administrator may.
pub fn set_fee_amount(ctx: &mut UpdateLimitsOrFee, fee_amount: u64) -> (outcome: Result<(), Errors>)
    ensures
        outcome == administrator_admission(old(ctx).authority, ledger_resolves(old(ctx).bridge_state)),
        *final(ctx) == if outcome is Ok {
            old(ctx).with_fee_amount(fee_amount)
        } else {
            *old(ctx)
        },
{
    let resolved = resolve_ledger(&ctx.bridge_state);
    check_administrator(&ctx.authority, resolved)?;
    ctx.set_fee_amount(fee_amount);
    Ok(())
}

/// Switches the relayer flow off. The administrator and the relayer may.
pub fn relayer_pause(ctx: &mut RelayerState) -> (outcome: Result<(), Errors>)
    ensures
        outcome == old(ctx).admission(ledger_resolves(old(ctx).bridge_state)),
        *final(ctx) == if outcome is Ok {
            old(ctx).with_relayer_state(State::Inactive)
        } else {
            *old(ctx)
        },
{
    let resolved = resolve_ledger(&ctx.bridge_state);
    ctx.check(resolved)?;
    ctx.relayer_pause();
    Ok(())
}

/// Switches the relayer flow on. The administrator and the relayer may.
pub fn relayer_unpause(ctx: &mut RelayerState) -> (outcome: Result<(), Errors>)
    ensures
        outcome == old(ctx).admission(ledger_resolves(old(ctx).bridge_state)),
        *final(ctx) == if outcome is Ok {
            old(ctx).with_relayer_state(State::Active)
        } else {
            *old(ctx)
        },
{
    let resolved = resolve_ledger(&ctx.bridge_state);
    ctx.check(resolved)?;
    ctx.relayer_unpause();
    Ok(())
}

/// Switches the public flow off. Only the administrator may.
pub fn public_pause(ctx: &mut PublicState) -> (outcome: Result<(), Errors>)
    ensures
        outcome == administrator_admission(old(ctx).authority, ledger_resolves(old(ctx).bridge_state)),
        *final(ctx) == if outcome is Ok {
            old(ctx).with_public_state(State::Inactive)
        } else {
            *old(ctx)
        },
{
    let resolved = resolve_ledger(&ctx.bridge_state);
    check_administrator(&ctx.authority, resolved)?;
    ctx.public_pause();
    Ok(())
}

/// Switches the public flow on. Only the administrator may.
pub fn public_unpause(ctx: &mut PublicState) -> (outcome: Result<(), Errors>)
    ensures
        outcome == administrator_admission(old(ctx).authority, ledger_resolves(old(ctx).bridge_state)),
        *final(ctx) == if outcome is Ok {
            old(ctx).with_public_state(State::Active)
        } else {
            *old(ctx)
        },
{
    let resolved = resolve_ledger(&ctx.bridge_state);
    check_administrator(&ctx.authority, resolved)?;
    ctx.public_unpause();
    Ok(())
}

/// Switches the enforcement of the whitelist on. Only the administrator
/// may.
pub fn set_whitelist_active(ctx: &mut WhitelistState) -> (outcome: Result<(), Errors>)
    ensures
        outcome == administrator_admission(old(ctx).authority, ledger_resolves(old(ctx).bridge_state)),
        *final(ctx) == if outcome is Ok {
            old(ctx).with_whitelist_state(State::Active)
        } else {
            *old(ctx)
        },
{
    let resolved = resolve_ledger(&ctx.bridge_state);
    check_administrator(&ctx.authority, resolved)?;
    ctx.set_whitelist_active();
    Ok(())
}

/// Switches the enforcement of the whitelist off. Only the administrator
/// may.
pub fn set_whitelist_inactive(ctx: &mut WhitelistState) -> (outcome: Result<(), Errors>)
    ensures
        outcome == administrator_admission(old(ctx).authority, ledger_resolves(old(ctx).bridge_state)),
        *final(ctx) == if outcome is Ok {
            old(ctx).with_whitelist_state(State::Inactive)
        } else {
            *old(ctx)
        },
{
    let resolved = resolve_ledger(&ctx.bridge_state);
    check_administrator(&ctx.authority, resolved)?;
    ctx.set_whitelist_inactive();
    Ok(())
}

/// Approves the counterparty `address` on this ledger record. Only the
/// administrator may; a counterparty that is approved already is refused.
pub fn add_to_whitelist(ctx: &mut AddToWhitelist, address: Address) -> (outcome: Result<(), Errors>)
    ensures
        outcome == old(ctx).admission(old(ctx).resolves(address)),
        *final(ctx) == old(ctx).after(old(ctx).resolves(address), address),
{
    let resolved = ctx.resolve(&address);
    ctx.check(resolved)?;
    ctx.add_to_whitelist(address);
    Ok(())
}

/// Withdraws the approval of the counterparty `address`. Only the
/// administrator may; a counterparty that is not approved is refused.
pub fn remove_from_whitelist(
    ctx: &mut RemoveFromWhitelist,
    address: Address,
) -> (outcome: Result<(), Errors>)
    ensures
        outcome == old(ctx).admission(old(ctx).resolves(address)),
        *final(ctx) == old(ctx).after(old(ctx).resolves(address)),
{
    let resolved = ctx.resolve(&address);
    ctx.check(resolved)?;
    ctx.remove_from_whitelist(address);
    Ok(())
}

/// Sends `amount` from the vault to the token account of `receiver`. Only
/// the relayer may, and only while the relayer flow is switched on. Hands
/// back the movement to make.
pub fn send_from_liquidity(
    ctx: &mut SendFromLiquidity,
    amount: u64,
    receiver: Address,
) -> (outcome: Result<Transfer, Errors>)
    ensures
        outcome == old(ctx).outcome(old(ctx).resolves(), amount, receiver),
        *final(ctx) == old(ctx).after(old(ctx).resolves(), amount, receiver),
{
    let resolved = ctx.resolve();
    ctx.check(resolved, amount, &receiver)?;
    Ok(ctx.send_from_liquidity(amount))
}

/// Deposits `amount` from the signer's holding into the vault, while the
/// public flow is switched on. The two texts name where the deposit goes on
/// the paired chain; they are carried, not judged. Hands back the movements
/// to make in their order, the fee first.
pub fn send_to_liquidity(
    ctx: &mut SendToLiquidity,
    amount: u64,
    _destination_address: String,
    _destination_address_signature: String,
) -> (outcome: Result<Vec<Transfer>, Errors>)
    ensures
        movements(outcome) == old(ctx).outcome(old(ctx).resolves(), amount),
        *final(ctx) == old(ctx).after(old(ctx).resolves(), amount),
{
    let resolved = ctx.resolve();
    ctx.check(resolved, amount)?;
    Ok(ctx.send_to_liquidity(amount))
}

} // verus!
