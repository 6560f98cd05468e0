use bridge_program::accounts::{Account, AccountSlot, Mint, TokenAccount, Transfer};
use bridge_program::bridge_program::{
    add_liquidity, add_to_whitelist, initialize_contract, public_pause, public_unpause,
    relayer_pause, relayer_unpause, remove_from_whitelist, remove_liquidity,
    send_from_liquidity, send_to_liquidity, set_deposit_limits, set_fee_amount,
    set_whitelist_active, set_whitelist_inactive, update_fee_collector, update_relayer,
    update_whitelisted_mint,
};
use bridge_program::constants::{admin_pubkey, id, native_mint_id};
use bridge_program::contexts::{
    AddLiquidity, AddToWhitelist, InitializeContract, PublicState, RelayerState,
    RemoveFromWhitelist, RemoveLiquidity, SendFromLiquidity, SendToLiquidity,
    UpdateFeeCollector, UpdateLimitsOrFee, UpdateRelayer, UpdateWhitelistedMint, WhitelistState,
};
use bridge_program::identity::{
    find_bridge_state_address, find_whitelist_entry_address, get_associated_token_address,
    Address,
};
use bridge_program::states::bridge::State;
use bridge_program::states::{BridgeState, Stage, WhitelistEntry};
use bridge_program::Errors;

const DECIMALS: u8 = 6;

fn key(byte: u8) -> Address {
    Address::new([byte; 32])
}

fn mint() -> Account<Mint> {
    Account { key: key(7), data: Mint { decimals: DECIMALS } }
}

fn relayer() -> Address {
    key(2)
}

fn fee_collector() -> Address {
    key(3)
}

fn depositor() -> Address {
    key(20)
}

fn ledger_key() -> Address {
    find_bridge_state_address(&id()).unwrap().0
}

fn vault_key() -> Address {
    get_associated_token_address(&ledger_key(), &mint().key).unwrap()
}

fn holding(owner: Address, asset: Address, amount: u64) -> Account<TokenAccount> {
    Account {
        key: get_associated_token_address(&owner, &asset).unwrap(),
        data: TokenAccount { mint: asset, owner, amount },
    }
}

fn vault(amount: u64) -> Account<TokenAccount> {
    holding(ledger_key(), mint().key, amount)
}

/// The ledger record as the creation leaves it, with the limits of the
/// example: one to a thousand units of a six-decimal asset, and no fee.
fn created() -> Account<BridgeState> {
    let mut ctx = InitializeContract {
        bridge_state: AccountSlot { key: ledger_key(), data: None },
        vault: vault_key(),
        mint_of_token_whitelisted: mint(),
        authority: admin_pubkey(),
    };
    assert_eq!(
        initialize_contract(&mut ctx, relayer(), fee_collector(), 0, 1_000000, 1000_000000),
        Ok(())
    );
    ctx.bridge_state.into_account().unwrap()
}

/// The ledger record with the public flow switched on.
fn open_to_public() -> Account<BridgeState> {
    let mut ctx = PublicState { bridge_state: created(), authority: admin_pubkey() };
    assert_eq!(public_unpause(&mut ctx), Ok(()));
    ctx.bridge_state
}

fn deposit_of(bridge_state: Account<BridgeState>, signer: Address, balance: u64) -> SendToLiquidity {
    SendToLiquidity {
        bridge_state,
        vault: vault(bridge_state.data.vault_amount),
        whitelist: None,
        authority: signer,
        mint_of_token_sent: mint(),
        authority_token_account: holding(signer, mint().key, balance),
        mint_of_fee_token_sent: None,
        fee_collector_ata: None,
        fee_collector: None,
        authority_fee_token_account: None,
    }
}

fn with_fee_accounts(mut ctx: SendToLiquidity, fee_balance: u64) -> SendToLiquidity {
    let native = Account { key: native_mint_id(), data: Mint { decimals: 9 } };
    ctx.mint_of_fee_token_sent = Some(native);
    ctx.fee_collector = Some(fee_collector());
    ctx.fee_collector_ata = Some(holding(fee_collector(), native.key, 0));
    ctx.authority_fee_token_account = Some(holding(ctx.authority, native.key, fee_balance));
    ctx
}

fn deposit(ctx: &mut SendToLiquidity, amount: u64) -> Result<(Option<Transfer>, Transfer), Errors> {
    send_to_liquidity(ctx, amount, String::from("erd1destination"), String::from("signature"))
        .map(|transfers| match transfers.len() {
            1 => (None, transfers[0]),
            2 => (Some(transfers[0]), transfers[1]),
            length => panic!("a deposit of {} movements", length),
        })
}

fn assert_transfer(
    transfer: &Transfer,
    from: Address,
    to: Address,
    asset: Address,
    authority: Address,
    amount: u64,
    decimals: u8,
    signer_bump: Option<u8>,
) {
    assert_eq!(transfer.from, from);
    assert_eq!(transfer.to, to);
    assert_eq!(transfer.mint, asset);
    assert_eq!(transfer.authority, authority);
    assert_eq!(transfer.amount, amount);
    assert_eq!(transfer.decimals, decimals);
    assert_eq!(transfer.signer_bump, signer_bump);
}

fn assert_unchanged(after: &BridgeState, before: &BridgeState) {
    assert_eq!(after.bump, before.bump);
    assert_eq!(after.mint_of_token_whitelisted, before.mint_of_token_whitelisted);
    assert_eq!(after.relayer_pubkey, before.relayer_pubkey);
    assert_eq!(after.vault, before.vault);
    assert_eq!(after.fee_collector, before.fee_collector);
    assert_eq!(after.vault_amount, before.vault_amount);
    assert_eq!(after.relayer_state, before.relayer_state);
    assert_eq!(after.public_state, before.public_state);
    assert_eq!(after.whitelist_state, before.whitelist_state);
    assert_eq!(after.minimum_deposit, before.minimum_deposit);
    assert_eq!(after.maximum_deposit, before.maximum_deposit);
    assert_eq!(after.fee_amount, before.fee_amount);
}

#[test]
fn codes_of_switches_and_stages() {
    assert_eq!(State::Inactive.to_code(), 0);
    assert_eq!(State::Active.to_code(), 1);
    assert_eq!(Stage::BridgeInitialized.to_code(), 1);
    assert_eq!(Stage::BridgeComplete.to_code(), 2);
}

#[test]
fn creation_writes_the_configuration_with_all_flows_off() {
    let record = created();
    let bump = find_bridge_state_address(&id()).unwrap().1;
    assert_eq!(record.key, ledger_key());
    assert_eq!(record.data.bump, bump);
    assert_eq!(record.data.mint_of_token_whitelisted, mint().key);
    assert_eq!(record.data.relayer_pubkey, relayer());
    assert_eq!(record.data.vault, vault_key());
    assert_eq!(record.data.fee_collector, fee_collector());
    assert_eq!(record.data.vault_amount, 0);
    assert_eq!(record.data.relayer_state, 0);
    assert_eq!(record.data.public_state, 0);
    assert_eq!(record.data.whitelist_state, 0);
    assert_eq!(record.data.minimum_deposit, 1_000000);
    assert_eq!(record.data.maximum_deposit, 1000_000000);
    assert_eq!(record.data.fee_amount, 0);
}

#[test]
fn creation_happens_once() {
    let mut ctx = InitializeContract {
        bridge_state: AccountSlot { key: ledger_key(), data: Some(created().data) },
        vault: vault_key(),
        mint_of_token_whitelisted: mint(),
        authority: admin_pubkey(),
    };
    let before = ctx.bridge_state.data.unwrap();
    assert_eq!(
        initialize_contract(&mut ctx, key(50), key(51), 9, 1, 2),
        Err(Errors::AccountAlreadyExists)
    );
    assert_unchanged(&ctx.bridge_state.data.unwrap(), &before);
}

#[test]
fn creation_is_the_administrators() {
    let mut ctx = InitializeContract {
        bridge_state: AccountSlot { key: ledger_key(), data: None },
        vault: vault_key(),
        mint_of_token_whitelisted: mint(),
        authority: relayer(),
    };
    assert_eq!(
        initialize_contract(&mut ctx, relayer(), fee_collector(), 0, 1, 2),
        Err(Errors::NotPrivileged)
    );
    assert!(ctx.bridge_state.data.is_none());
}

#[test]
fn creation_needs_the_derived_addresses() {
    let mut ctx = InitializeContract {
        bridge_state: AccountSlot { key: key(99), data: None },
        vault: vault_key(),
        mint_of_token_whitelisted: mint(),
        authority: admin_pubkey(),
    };
    assert_eq!(
        initialize_contract(&mut ctx, relayer(), fee_collector(), 0, 1, 2),
        Err(Errors::AddressMismatch)
    );
    assert!(ctx.bridge_state.data.is_none());
    let mut ctx = InitializeContract {
        bridge_state: AccountSlot { key: ledger_key(), data: None },
        vault: key(98),
        mint_of_token_whitelisted: mint(),
        authority: admin_pubkey(),
    };
    assert_eq!(
        initialize_contract(&mut ctx, relayer(), fee_collector(), 0, 1, 2),
        Err(Errors::AddressMismatch)
    );
    assert!(ctx.bridge_state.data.is_none());
}

#[test]
fn example_deposit_of_five_hundred_units() {
    let mut ctx = deposit_of(open_to_public(), depositor(), 500_000000);
    let (fee, principal) = deposit(&mut ctx, 500_000000).unwrap();
    assert!(fee.is_none());
    assert_transfer(
        &principal,
        ctx.authority_token_account.key,
        vault_key(),
        mint().key,
        depositor(),
        500_000000,
        DECIMALS,
        None,
    );
    assert_eq!(ctx.bridge_state.data.vault_amount, 500_000000);
}

#[test]
fn deposit_adds_exactly_the_amount() {
    let mut record = open_to_public();
    record.data.vault_amount = 123;
    let before = record.data;
    let mut ctx = deposit_of(record, depositor(), 10_000000);
    assert!(deposit(&mut ctx, 7_000000).is_ok());
    assert_eq!(ctx.bridge_state.data.vault_amount, 7_000123);
    let mut expected = before;
    expected.vault_amount = 7_000123;
    assert_unchanged(&ctx.bridge_state.data, &expected);
}

#[test]
fn deposit_limits_are_inclusive() {
    let mut ctx = deposit_of(open_to_public(), depositor(), u64::MAX);
    assert!(deposit(&mut ctx, 1_000000).is_ok());
    assert!(deposit(&mut ctx, 1000_000000).is_ok());
    assert_eq!(ctx.bridge_state.data.vault_amount, 1001_000000);
}

#[test]
fn deposit_outside_the_limits_is_refused() {
    let mut record = open_to_public();
    record.data.minimum_deposit = 2_000000;
    let before = record.data;
    let mut ctx = deposit_of(record, depositor(), u64::MAX);
    assert_eq!(deposit(&mut ctx, 1_000000).err(), Some(Errors::PaymentAmountNotInAcceptedRange));
    assert_eq!(deposit(&mut ctx, 1001_000000).err(), Some(Errors::PaymentAmountNotInAcceptedRange));
    assert_eq!(deposit(&mut ctx, 0).err(), Some(Errors::PaymentAmountNotInAcceptedRange));
    assert_unchanged(&ctx.bridge_state.data, &before);
}

#[test]
fn deposit_of_a_fraction_is_refused_even_in_range() {
    let record = open_to_public();
    let before = record.data;
    let mut ctx = deposit_of(record, depositor(), u64::MAX);
    assert_eq!(deposit(&mut ctx, 1_500000).err(), Some(Errors::NotWholeNumber));
    assert_eq!(deposit(&mut ctx, 1_000001).err(), Some(Errors::NotWholeNumber));
    // out of range as well: the whole number is asked first
    assert_eq!(deposit(&mut ctx, 1).err(), Some(Errors::NotWholeNumber));
    assert_unchanged(&ctx.bridge_state.data, &before);
}

#[test]
fn deposit_while_paused_is_refused_whatever_the_amount() {
    let record = created();
    let before = record.data;
    let mut ctx = deposit_of(record, depositor(), u64::MAX);
    assert_eq!(deposit(&mut ctx, 500_000000).err(), Some(Errors::ProgramIsPaused));
    assert_eq!(deposit(&mut ctx, 1).err(), Some(Errors::ProgramIsPaused));
    assert_eq!(deposit(&mut ctx, 0).err(), Some(Errors::ProgramIsPaused));
    assert_eq!(deposit(&mut ctx, u64::MAX).err(), Some(Errors::ProgramIsPaused));
    assert_unchanged(&ctx.bridge_state.data, &before);
    let mut paused = PublicState { bridge_state: open_to_public(), authority: admin_pubkey() };
    assert_eq!(public_pause(&mut paused), Ok(()));
    let mut ctx = deposit_of(paused.bridge_state, depositor(), u64::MAX);
    assert_eq!(deposit(&mut ctx, 500_000000).err(), Some(Errors::ProgramIsPaused));
}

#[test]
fn deposit_needs_the_balance_the_owner_and_the_asset() {
    let record = open_to_public();
    let mut ctx = deposit_of(record, depositor(), 4_000000);
    assert_eq!(deposit(&mut ctx, 5_000000).err(), Some(Errors::NotEnoughBalance));
    let mut ctx = deposit_of(record, depositor(), 5_000000);
    ctx.authority_token_account.data.owner = key(21);
    assert_eq!(deposit(&mut ctx, 5_000000).err(), Some(Errors::OwnerMismatch));
    let mut ctx = deposit_of(record, depositor(), 5_000000);
    ctx.authority_token_account.data.mint = key(8);
    assert_eq!(deposit(&mut ctx, 5_000000).err(), Some(Errors::MintMismatch));
    let mut ctx = deposit_of(record, depositor(), 5_000000);
    ctx.vault.data.owner = key(21);
    assert_eq!(deposit(&mut ctx, 5_000000).err(), Some(Errors::OwnerMismatch));
    let mut ctx = deposit_of(record, depositor(), 5_000000);
    ctx.vault.data.mint = key(8);
    assert_eq!(deposit(&mut ctx, 5_000000).err(), Some(Errors::MintMismatch));
    assert_eq!(ctx.bridge_state.data.vault_amount, 0);
}

#[test]
fn deposit_of_another_asset_is_refused() {
    let record = open_to_public();
    let other = Account { key: key(8), data: Mint { decimals: DECIMALS } };
    let mut ctx = deposit_of(record, depositor(), 5_000000);
    ctx.mint_of_token_sent = other;
    // the vault of the other asset is not the one that the record names
    assert_eq!(deposit(&mut ctx, 5_000000).err(), Some(Errors::AddressMismatch));
    // nor is any other account in the vault's place
    let mut ctx = deposit_of(record, depositor(), 5_000000);
    ctx.vault.key = key(97);
    assert_eq!(deposit(&mut ctx, 5_000000).err(), Some(Errors::AddressMismatch));
    // where the asset differs from the whitelisted one and the addresses agree
    let mut renamed = record;
    renamed.data.mint_of_token_whitelisted = other.key;
    let mut ctx = deposit_of(renamed, depositor(), 5_000000);
    assert_eq!(deposit(&mut ctx, 5_000000).err(), Some(Errors::MintMismatch));
}

#[test]
fn deposit_that_the_cached_balance_cannot_take_is_refused() {
    let mut record = open_to_public();
    record.data.vault_amount = u64::MAX - 4_999999;
    let before = record.data;
    let mut ctx = deposit_of(record, depositor(), 5_000000);
    assert_eq!(deposit(&mut ctx, 5_000000).err(), Some(Errors::BalanceOverflow));
    assert_unchanged(&ctx.bridge_state.data, &before);
    ctx.bridge_state.data.vault_amount = u64::MAX - 5_000000;
    assert!(deposit(&mut ctx, 5_000000).is_ok());
    assert_eq!(ctx.bridge_state.data.vault_amount, u64::MAX);
}

fn whitelist_place(counterparty: Address) -> AccountSlot<WhitelistEntry> {
    AccountSlot {
        key: find_whitelist_entry_address(&counterparty, &ledger_key(), &id()).unwrap().0,
        data: None,
    }
}

fn with_whitelist_enforced(bridge_state: Account<BridgeState>) -> Account<BridgeState> {
    let mut ctx = WhitelistState { bridge_state, authority: admin_pubkey() };
    assert_eq!(set_whitelist_active(&mut ctx), Ok(()));
    assert_eq!(ctx.bridge_state.data.whitelist_state, 1);
    ctx.bridge_state
}

#[test]
fn whitelist_decides_while_it_is_enforced() {
    let record = with_whitelist_enforced(open_to_public());
    let mut ctx = deposit_of(record, depositor(), 100_000000);
    assert_eq!(deposit(&mut ctx, 5_000000).err(), Some(Errors::NotWhitelisted));
    assert_eq!(ctx.bridge_state.data.vault_amount, 0);

    let mut approval = AddToWhitelist {
        whitelist_entry: whitelist_place(depositor()),
        authority: admin_pubkey(),
        bridge_state: record,
    };
    assert_eq!(add_to_whitelist(&mut approval, depositor()), Ok(()));
    let entry = approval.whitelist_entry.data.unwrap();
    assert_eq!(entry.whitelist_address, depositor());
    assert_eq!(entry.bridge_state_address, ledger_key());

    ctx.whitelist = approval.whitelist_entry.into_account();
    assert!(deposit(&mut ctx, 5_000000).is_ok());
    assert_eq!(ctx.bridge_state.data.vault_amount, 5_000000);

    let mut withdrawal = RemoveFromWhitelist {
        whitelist_entry: approval.whitelist_entry,
        authority: admin_pubkey(),
        bridge_state: record,
    };
    assert_eq!(remove_from_whitelist(&mut withdrawal, depositor()), Ok(()));
    assert!(withdrawal.whitelist_entry.data.is_none());

    ctx.whitelist = withdrawal.whitelist_entry.into_account();
    assert_eq!(deposit(&mut ctx, 5_000000).err(), Some(Errors::NotWhitelisted));
    assert_eq!(ctx.bridge_state.data.vault_amount, 5_000000);
}

#[test]
fn whitelist_is_not_asked_while_it_is_not_enforced() {
    let mut enforced = WhitelistState {
        bridge_state: with_whitelist_enforced(open_to_public()),
        authority: admin_pubkey(),
    };
    assert_eq!(set_whitelist_inactive(&mut enforced), Ok(()));
    assert_eq!(enforced.bridge_state.data.whitelist_state, 0);
    let mut ctx = deposit_of(enforced.bridge_state, depositor(), 100_000000);
    assert!(deposit(&mut ctx, 5_000000).is_ok());
}

#[test]
fn whitelist_entry_of_another_counterparty_does_not_resolve() {
    let record = with_whitelist_enforced(open_to_public());
    let mut approval = AddToWhitelist {
        whitelist_entry: whitelist_place(key(21)),
        authority: admin_pubkey(),
        bridge_state: record,
    };
    assert_eq!(add_to_whitelist(&mut approval, key(21)), Ok(()));
    let mut ctx = deposit_of(record, depositor(), 100_000000);
    ctx.whitelist = approval.whitelist_entry.into_account();
    assert_eq!(deposit(&mut ctx, 5_000000).err(), Some(Errors::AddressMismatch));
}

#[test]
fn second_approval_is_refused() {
    let mut approval = AddToWhitelist {
        whitelist_entry: whitelist_place(depositor()),
        authority: admin_pubkey(),
        bridge_state: created(),
    };
    assert_eq!(add_to_whitelist(&mut approval, depositor()), Ok(()));
    assert_eq!(add_to_whitelist(&mut approval, depositor()), Err(Errors::AccountAlreadyExists));
    let entry = approval.whitelist_entry.data.unwrap();
    assert_eq!(entry.whitelist_address, depositor());
    assert_eq!(entry.bridge_state_address, ledger_key());
}

#[test]
fn approval_is_the_administrators_and_at_the_derived_place() {
    let mut approval = AddToWhitelist {
        whitelist_entry: whitelist_place(depositor()),
        authority: relayer(),
        bridge_state: created(),
    };
    assert_eq!(add_to_whitelist(&mut approval, depositor()), Err(Errors::NotPrivileged));
    assert!(approval.whitelist_entry.data.is_none());
    approval.authority = admin_pubkey();
    assert_eq!(add_to_whitelist(&mut approval, key(21)), Err(Errors::AddressMismatch));
    assert!(approval.whitelist_entry.data.is_none());
}

#[test]
fn withdrawal_of_a_missing_approval_is_refused() {
    let mut withdrawal = RemoveFromWhitelist {
        whitelist_entry: whitelist_place(depositor()),
        authority: admin_pubkey(),
        bridge_state: created(),
    };
    assert_eq!(remove_from_whitelist(&mut withdrawal, depositor()), Err(Errors::AccountNotFound));
    withdrawal.authority = depositor();
    assert_eq!(remove_from_whitelist(&mut withdrawal, depositor()), Err(Errors::NotPrivileged));
    withdrawal.authority = admin_pubkey();
    assert_eq!(remove_from_whitelist(&mut withdrawal, key(21)), Err(Errors::AddressMismatch));
}

fn with_fee(bridge_state: Account<BridgeState>, fee_amount: u64) -> Account<BridgeState> {
    let mut ctx = UpdateLimitsOrFee { bridge_state, authority: admin_pubkey() };
    assert_eq!(set_fee_amount(&mut ctx, fee_amount), Ok(()));
    assert_eq!(ctx.bridge_state.data.fee_amount, fee_amount);
    ctx.bridge_state
}

#[test]
fn fee_is_moved_before_the_principal() {
    let record = with_fee(open_to_public(), 5000);
    let mut ctx = with_fee_accounts(deposit_of(record, depositor(), 100_000000), 5000);
    let (fee, principal) = deposit(&mut ctx, 2_000000).unwrap();
    let fee = fee.unwrap();
    assert_transfer(
        &fee,
        ctx.authority_fee_token_account.unwrap().key,
        ctx.fee_collector_ata.unwrap().key,
        native_mint_id(),
        depositor(),
        5000,
        9,
        None,
    );
    assert_transfer(
        &principal,
        ctx.authority_token_account.key,
        vault_key(),
        mint().key,
        depositor(),
        2_000000,
        DECIMALS,
        None,
    );
    assert_eq!(ctx.bridge_state.data.vault_amount, 2_000000);
}

#[test]
fn fee_needs_its_accounts() {
    let record = with_fee(open_to_public(), 5000);
    let mut ctx = deposit_of(record, depositor(), 100_000000);
    assert_eq!(deposit(&mut ctx, 2_000000).err(), Some(Errors::NoFeeAccountsProvided));
    let mut ctx = with_fee_accounts(deposit_of(record, depositor(), 100_000000), 5000);
    ctx.fee_collector = None;
    assert_eq!(deposit(&mut ctx, 2_000000).err(), Some(Errors::NoFeeAccountsProvided));
    let mut ctx = with_fee_accounts(deposit_of(record, depositor(), 100_000000), 5000);
    ctx.authority_fee_token_account = None;
    assert_eq!(deposit(&mut ctx, 2_000000).err(), Some(Errors::NoFeeAccountsProvided));
    assert_eq!(ctx.bridge_state.data.vault_amount, 0);
}

#[test]
fn fee_accounts_are_held_to_the_record() {
    let record = with_fee(open_to_public(), 5000);
    let mut ctx = with_fee_accounts(deposit_of(record, depositor(), 100_000000), 4999);
    assert_eq!(deposit(&mut ctx, 2_000000).err(), Some(Errors::NotEnoughBalance));

    let mut renamed = UpdateFeeCollector { bridge_state: record, authority: admin_pubkey() };
    assert_eq!(update_fee_collector(&mut renamed, key(30)), Ok(()));
    assert_eq!(renamed.bridge_state.data.fee_collector, key(30));
    let mut ctx =
        with_fee_accounts(deposit_of(renamed.bridge_state, depositor(), 100_000000), 5000);
    assert_eq!(deposit(&mut ctx, 2_000000).err(), Some(Errors::FeeCollectorMismatch));

    let mut ctx = with_fee_accounts(deposit_of(record, depositor(), 100_000000), 5000);
    let other = Account { key: key(8), data: Mint { decimals: 9 } };
    ctx.mint_of_fee_token_sent = Some(other);
    ctx.fee_collector_ata = Some(holding(fee_collector(), other.key, 0));
    ctx.authority_fee_token_account = Some(holding(depositor(), other.key, 5000));
    assert_eq!(deposit(&mut ctx, 2_000000).err(), Some(Errors::MintMismatch));

    let mut ctx = with_fee_accounts(deposit_of(record, depositor(), 100_000000), 5000);
    let mut account = ctx.authority_fee_token_account.unwrap();
    account.data.owner = key(21);
    ctx.authority_fee_token_account = Some(account);
    assert_eq!(deposit(&mut ctx, 2_000000).err(), Some(Errors::OwnerMismatch));
}

#[test]
fn fee_accounts_are_not_asked_without_a_fee() {
    let mut ctx = with_fee_accounts(deposit_of(open_to_public(), depositor(), 100_000000), 0);
    let (fee, _) = deposit(&mut ctx, 2_000000).unwrap();
    assert!(fee.is_none());
}

fn open_to_relayer(vault_amount: u64) -> Account<BridgeState> {
    let mut ctx = RelayerState { bridge_state: created(), authority: admin_pubkey() };
    assert_eq!(relayer_unpause(&mut ctx), Ok(()));
    assert_eq!(ctx.bridge_state.data.relayer_state, 1);
    ctx.bridge_state.data.vault_amount = vault_amount;
    ctx.bridge_state
}

fn outbound(bridge_state: Account<BridgeState>, signer: Address, receiver: Address) -> SendFromLiquidity {
    SendFromLiquidity {
        bridge_state,
        vault: vault(bridge_state.data.vault_amount),
        authority: signer,
        mint_of_token_sent: mint(),
        receiver_token_account: holding(receiver, mint().key, 0),
    }
}

#[test]
fn outbound_transfer_by_the_relayer() {
    let receiver = key(40);
    let record = open_to_relayer(50_000000);
    let mut ctx = outbound(record, relayer(), receiver);
    let transfer = send_from_liquidity(&mut ctx, 20_000000, receiver).unwrap();
    assert_transfer(
        &transfer,
        vault_key(),
        ctx.receiver_token_account.key,
        mint().key,
        ledger_key(),
        20_000000,
        DECIMALS,
        Some(record.data.bump),
    );
    assert_eq!(ctx.bridge_state.data.vault_amount, 30_000000);
    let mut expected = record.data;
    expected.vault_amount = 30_000000;
    assert_unchanged(&ctx.bridge_state.data, &expected);
}

#[test]
fn outbound_transfer_is_the_relayers() {
    let receiver = key(40);
    let record = open_to_relayer(50_000000);
    let mut ctx = outbound(record, admin_pubkey(), receiver);
    assert_eq!(send_from_liquidity(&mut ctx, 20_000000, receiver).err(), Some(Errors::NotPrivileged));
    let mut ctx = outbound(record, receiver, receiver);
    assert_eq!(send_from_liquidity(&mut ctx, 20_000000, receiver).err(), Some(Errors::NotPrivileged));
    assert_unchanged(&ctx.bridge_state.data, &record.data);
}

#[test]
fn outbound_transfer_while_paused_is_refused() {
    let receiver = key(40);
    let mut record = created();
    record.data.vault_amount = 50_000000;
    let mut ctx = outbound(record, relayer(), receiver);
    assert_eq!(send_from_liquidity(&mut ctx, 20_000000, receiver).err(), Some(Errors::ProgramIsPaused));
    assert_unchanged(&ctx.bridge_state.data, &record.data);
    // the role is asked before the switch
    let mut ctx = outbound(record, key(41), receiver);
    assert_eq!(send_from_liquidity(&mut ctx, 20_000000, receiver).err(), Some(Errors::NotPrivileged));
}

#[test]
fn outbound_transfer_needs_the_balance_and_the_receivers_account() {
    let receiver = key(40);
    let record = open_to_relayer(50_000000);
    let mut ctx = outbound(record, relayer(), receiver);
    assert_eq!(send_from_liquidity(&mut ctx, 50_000001, receiver).err(), Some(Errors::NotEnoughBalance));
    ctx.vault.data.amount = 60_000000;
    assert_eq!(send_from_liquidity(&mut ctx, 50_000001, receiver).err(), Some(Errors::NotEnoughBalance));
    ctx.vault.data.amount = 10_000000;
    assert_eq!(send_from_liquidity(&mut ctx, 20_000000, receiver).err(), Some(Errors::NotEnoughBalance));
    let mut ctx = outbound(record, relayer(), receiver);
    assert_eq!(send_from_liquidity(&mut ctx, 20_000000, key(41)).err(), Some(Errors::OwnerMismatch));
    ctx.receiver_token_account.data.mint = key(8);
    assert_eq!(send_from_liquidity(&mut ctx, 20_000000, receiver).err(), Some(Errors::MintMismatch));
    assert_unchanged(&ctx.bridge_state.data, &record.data);
    // all of what the vault holds may leave
    let mut ctx = outbound(record, relayer(), receiver);
    assert!(send_from_liquidity(&mut ctx, 50_000000, receiver).is_ok());
    assert_eq!(ctx.bridge_state.data.vault_amount, 0);
}

#[test]
fn liquidity_round_trip() {
    let mut record = created();
    record.data.vault_amount = 11;
    let mut add = AddLiquidity {
        bridge_state: record,
        vault: vault(11),
        authority: admin_pubkey(),
        mint_of_token_sent: mint(),
        authority_token_account: holding(admin_pubkey(), mint().key, 1000),
    };
    let transfer = add_liquidity(&mut add, 1000).unwrap();
    assert_transfer(
        &transfer,
        add.authority_token_account.key,
        vault_key(),
        mint().key,
        admin_pubkey(),
        1000,
        DECIMALS,
        None,
    );
    assert_eq!(add.bridge_state.data.vault_amount, 1011);
    let mut remove = RemoveLiquidity {
        bridge_state: add.bridge_state,
        vault: vault(1011),
        authority: admin_pubkey(),
        mint_of_token_sent: mint(),
        authority_token_account: holding(admin_pubkey(), mint().key, 0),
    };
    let transfer = remove_liquidity(&mut remove, 1000).unwrap();
    assert_transfer(
        &transfer,
        vault_key(),
        remove.authority_token_account.key,
        mint().key,
        ledger_key(),
        1000,
        DECIMALS,
        Some(record.data.bump),
    );
    assert_eq!(remove.bridge_state.data.vault_amount, 11);
    assert_unchanged(&remove.bridge_state.data, &record.data);
}

#[test]
fn liquidity_is_the_administrators() {
    let record = created();
    let mut add = AddLiquidity {
        bridge_state: record,
        vault: vault(0),
        authority: relayer(),
        mint_of_token_sent: mint(),
        authority_token_account: holding(relayer(), mint().key, 1000),
    };
    assert_eq!(add_liquidity(&mut add, 1000).err(), Some(Errors::NotPrivileged));
    assert_eq!(add.bridge_state.data.vault_amount, 0);
    let mut remove = RemoveLiquidity {
        bridge_state: record,
        vault: vault(1000),
        authority: relayer(),
        mint_of_token_sent: mint(),
        authority_token_account: holding(relayer(), mint().key, 0),
    };
    assert_eq!(remove_liquidity(&mut remove, 0).err(), Some(Errors::NotPrivileged));
}

#[test]
fn liquidity_needs_the_balance() {
    let mut record = created();
    let mut add = AddLiquidity {
        bridge_state: record,
        vault: vault(0),
        authority: admin_pubkey(),
        mint_of_token_sent: mint(),
        authority_token_account: holding(admin_pubkey(), mint().key, 999),
    };
    assert_eq!(add_liquidity(&mut add, 1000).err(), Some(Errors::NotEnoughBalance));
    add.authority_token_account.data.amount = 1000;
    add.authority_token_account.data.owner = relayer();
    assert_eq!(add_liquidity(&mut add, 1000).err(), Some(Errors::OwnerMismatch));
    add.authority_token_account.data.owner = admin_pubkey();
    add.authority_token_account.data.mint = key(8);
    assert_eq!(add_liquidity(&mut add, 1000).err(), Some(Errors::MintMismatch));
    add.authority_token_account.data.mint = mint().key;
    add.bridge_state.data.vault_amount = u64::MAX - 999;
    assert_eq!(add_liquidity(&mut add, 1000).err(), Some(Errors::BalanceOverflow));
    assert_eq!(add.bridge_state.data.vault_amount, u64::MAX - 999);

    record.data.vault_amount = 500;
    let mut remove = RemoveLiquidity {
        bridge_state: record,
        vault: vault(500),
        authority: admin_pubkey(),
        mint_of_token_sent: mint(),
        authority_token_account: holding(admin_pubkey(), mint().key, 0),
    };
    assert_eq!(remove_liquidity(&mut remove, 501).err(), Some(Errors::NotEnoughBalance));
    assert_eq!(remove.bridge_state.data.vault_amount, 500);
    assert!(remove_liquidity(&mut remove, 500).is_ok());
    assert_eq!(remove.bridge_state.data.vault_amount, 0);
}

#[test]
fn configuration_changes_are_the_administrators_and_idempotent() {
    let record = created();
    let mut ctx = UpdateRelayer { bridge_state: record, authority: admin_pubkey() };
    assert_eq!(update_relayer(&mut ctx, key(60)), Ok(()));
    let once = ctx.bridge_state.data;
    assert_eq!(once.relayer_pubkey, key(60));
    assert_eq!(update_relayer(&mut ctx, key(60)), Ok(()));
    assert_unchanged(&ctx.bridge_state.data, &once);
    ctx.authority = relayer();
    assert_eq!(update_relayer(&mut ctx, key(61)), Err(Errors::NotPrivileged));
    assert_unchanged(&ctx.bridge_state.data, &once);

    let mut ctx = UpdateFeeCollector { bridge_state: record, authority: relayer() };
    assert_eq!(update_fee_collector(&mut ctx, key(62)), Err(Errors::NotPrivileged));
    assert_unchanged(&ctx.bridge_state.data, &record.data);

    let mut ctx = UpdateLimitsOrFee { bridge_state: record, authority: admin_pubkey() };
    assert_eq!(set_deposit_limits(&mut ctx, 5, 9), Ok(()));
    assert_eq!(ctx.bridge_state.data.minimum_deposit, 5);
    assert_eq!(ctx.bridge_state.data.maximum_deposit, 9);
    let once = ctx.bridge_state.data;
    assert_eq!(set_deposit_limits(&mut ctx, 5, 9), Ok(()));
    assert_unchanged(&ctx.bridge_state.data, &once);
    assert_eq!(set_fee_amount(&mut ctx, 77), Ok(()));
    assert_eq!(ctx.bridge_state.data.fee_amount, 77);
    ctx.authority = key(63);
    assert_eq!(set_deposit_limits(&mut ctx, 1, 2), Err(Errors::NotPrivileged));
    assert_eq!(set_fee_amount(&mut ctx, 1), Err(Errors::NotPrivileged));
    assert_eq!(ctx.bridge_state.data.minimum_deposit, 5);
    assert_eq!(ctx.bridge_state.data.fee_amount, 77);
}

#[test]
fn configuration_changes_need_the_record_at_its_address() {
    let mut record = created();
    record.key = key(99);
    let mut ctx = UpdateRelayer { bridge_state: record, authority: admin_pubkey() };
    assert_eq!(update_relayer(&mut ctx, key(60)), Err(Errors::AddressMismatch));
    let mut record = created();
    record.data.bump = record.data.bump.wrapping_add(1);
    let mut ctx = UpdateLimitsOrFee { bridge_state: record, authority: admin_pubkey() };
    assert_eq!(set_fee_amount(&mut ctx, 1), Err(Errors::AddressMismatch));
}

#[test]
fn switches_are_flipped_by_those_who_may() {
    let record = created();
    let mut ctx = RelayerState { bridge_state: record, authority: relayer() };
    assert_eq!(relayer_unpause(&mut ctx), Ok(()));
    assert_eq!(ctx.bridge_state.data.relayer_state, 1);
    assert_eq!(ctx.bridge_state.data.public_state, 0);
    assert_eq!(ctx.bridge_state.data.whitelist_state, 0);
    assert_eq!(relayer_pause(&mut ctx), Ok(()));
    assert_eq!(ctx.bridge_state.data.relayer_state, 0);
    ctx.authority = key(70);
    assert_eq!(relayer_unpause(&mut ctx), Err(Errors::NotPrivileged));
    assert_eq!(relayer_pause(&mut ctx), Err(Errors::NotPrivileged));
    assert_eq!(ctx.bridge_state.data.relayer_state, 0);

    let mut ctx = PublicState { bridge_state: record, authority: relayer() };
    assert_eq!(public_unpause(&mut ctx), Err(Errors::NotPrivileged));
    assert_eq!(public_pause(&mut ctx), Err(Errors::NotPrivileged));
    assert_eq!(ctx.bridge_state.data.public_state, 0);
    ctx.authority = admin_pubkey();
    assert_eq!(public_unpause(&mut ctx), Ok(()));
    assert_eq!(ctx.bridge_state.data.public_state, 1);
    assert_eq!(ctx.bridge_state.data.relayer_state, 0);
    assert_eq!(ctx.bridge_state.data.whitelist_state, 0);

    let mut ctx = WhitelistState { bridge_state: record, authority: relayer() };
    assert_eq!(set_whitelist_active(&mut ctx), Err(Errors::NotPrivileged));
    assert_eq!(set_whitelist_inactive(&mut ctx), Err(Errors::NotPrivileged));
    assert_eq!(ctx.bridge_state.data.whitelist_state, 0);
}

#[test]
fn another_asset_is_whitelisted_with_its_vault() {
    let record = created();
    let other = Account { key: key(8), data: Mint { decimals: 9 } };
    let other_vault = holding(ledger_key(), other.key, 4242);
    let mut ctx = UpdateWhitelistedMint {
        bridge_state: record,
        vault: other_vault,
        mint_of_token_whitelisted: other,
        authority: admin_pubkey(),
    };
    assert_eq!(update_whitelisted_mint(&mut ctx), Ok(()));
    assert_eq!(ctx.bridge_state.data.mint_of_token_whitelisted, other.key);
    assert_eq!(ctx.bridge_state.data.vault, other_vault.key);
    assert_eq!(ctx.bridge_state.data.vault_amount, 4242);
    let once = ctx.bridge_state.data;
    assert_eq!(update_whitelisted_mint(&mut ctx), Ok(()));
    assert_unchanged(&ctx.bridge_state.data, &once);

    let mut ctx = UpdateWhitelistedMint {
        bridge_state: record,
        vault: other_vault,
        mint_of_token_whitelisted: other,
        authority: relayer(),
    };
    assert_eq!(update_whitelisted_mint(&mut ctx), Err(Errors::NotPrivileged));
    ctx.authority = admin_pubkey();
    ctx.vault = vault(0);
    assert_eq!(update_whitelisted_mint(&mut ctx), Err(Errors::AddressMismatch));
    ctx.vault = other_vault;
    ctx.vault.data.owner = relayer();
    assert_eq!(update_whitelisted_mint(&mut ctx), Err(Errors::OwnerMismatch));
    assert_unchanged(&ctx.bridge_state.data, &record.data);
}
