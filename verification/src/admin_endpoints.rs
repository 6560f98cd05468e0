use crate::constants::{
    associated_token_program_bytes, associated_token_program_id, system_program_bytes,
    system_program_id, token_program_bytes, token_program_id,
};
use crate::identity::{
    associated_token_seeds, bridge_state_seeds, derived_address, find_bridge_state_address,
    find_whitelist_entry_address, get_associated_token_address, whitelist_entry_seeds, Address,
};
use crate::instruction::{
    method_bytes, method_data, readonly, writable, AccountMeta, AccountMetaView, Instruction,
    InstructionView,
};
use vstd::bytes::{spec_u64_to_le_bytes, u64_to_le_bytes};
use vstd::prelude::*;
use vstd::string::StringSliceAdditionalSpecFns;

verus! {

/// An instruction that may be missing, as plain values.
pub open spec fn instruction_view(instruction: Option<Instruction>) -> Option<InstructionView> {
    match instruction {
        Some(instruction) => Some(instruction@),
        None => None,
    }
}

/// The accounts of an operation on the ledger record alone: the record,
/// the signer, the system program.
pub open spec fn ledger_accounts(ledger: Seq<u8>, signer: Seq<u8>) -> Seq<AccountMetaView> {
    seq![
        writable(ledger, false),
        readonly(signer, true),
        readonly(system_program_bytes(), false),
    ]
}

/// The accounts of an operation that names the whitelisted asset: the
/// ledger record, its vault, the asset, the signer, and the three programs.
pub open spec fn vault_accounts(
    ledger: Seq<u8>,
    vault: Seq<u8>,
    mint: Seq<u8>,
    signer: Seq<u8>,
) -> Seq<AccountMetaView> {
    seq![
        writable(ledger, false),
        writable(vault, false),
        readonly(mint, false),
        readonly(signer, true),
        readonly(system_program_bytes(), false),
        readonly(token_program_bytes(), false),
        readonly(associated_token_program_bytes(), false),
    ]
}

/// The accounts of a top-up or a drain: the ledger record, its vault, the
/// signer, the asset, the signer's own holding, and the three programs.
pub open spec fn liquidity_accounts(
    ledger: Seq<u8>,
    vault: Seq<u8>,
    signer: Seq<u8>,
    mint: Seq<u8>,
    holding: Seq<u8>,
) -> Seq<AccountMetaView> {
    seq![
        writable(ledger, false),
        writable(vault, false),
        readonly(signer, true),
        readonly(mint, false),
        writable(holding, false),
        readonly(system_program_bytes(), false),
        readonly(token_program_bytes(), false),
        readonly(associated_token_program_bytes(), false),
    ]
}

/// The accounts of an operation on one whitelist entry: the entry, the
/// signer, the ledger record, the system program.
pub open spec fn whitelist_accounts(
    entry: Seq<u8>,
    signer: Seq<u8>,
    ledger: Seq<u8>,
) -> Seq<AccountMetaView> {
    seq![
        writable(entry, false),
        readonly(signer, true),
        writable(ledger, false),
        readonly(system_program_bytes(), false),
    ]
}

/// The instruction of the operation `name` on the ledger record alone;
/// `None` where the record's address cannot be derived.
pub open spec fn ledger_instruction(
    program_id: Seq<u8>,
    signer: Seq<u8>,
    name: Seq<u8>,
    arguments: Seq<u8>,
) -> Option<InstructionView> {
    match derived_address(bridge_state_seeds(), program_id) {
        Some(ledger) => Some(
            InstructionView {
                program_id,
                accounts: ledger_accounts(ledger, signer),
                data: method_data(name, arguments),
            },
        ),
        None => None,
    }
}

/// The instruction of the operation `name` that names the asset `mint`;
/// `None` where the address of the ledger record or of its vault cannot be
/// derived.
pub open spec fn vault_instruction(
    program_id: Seq<u8>,
    signer: Seq<u8>,
    mint: Seq<u8>,
    name: Seq<u8>,
    arguments: Seq<u8>,
) -> Option<InstructionView> {
    match derived_address(bridge_state_seeds(), program_id) {
        Some(ledger) => match derived_address(
            associated_token_seeds(ledger, mint),
            associated_token_program_bytes(),
        ) {
            Some(vault) => Some(
                InstructionView {
                    program_id,
                    accounts: vault_accounts(ledger, vault, mint, signer),
                    data: method_data(name, arguments),
                },
            ),
            None => None,
        },
        None => None,
    }
}

/// The instruction of the top-up or drain `name` of `amount` in the asset
/// `mint`; `None` where the address of the ledger record, of its vault or of
/// the signer's holding cannot be derived.
pub open spec fn liquidity_instruction(
    program_id: Seq<u8>,
    signer: Seq<u8>,
    mint: Seq<u8>,
    name: Seq<u8>,
    amount: u64,
) -> Option<InstructionView> {
    match derived_address(bridge_state_seeds(), program_id) {
        Some(ledger) => match derived_address(
            associated_token_seeds(ledger, mint),
            associated_token_program_bytes(),
        ) {
            Some(vault) => match derived_address(
                associated_token_seeds(signer, mint),
                associated_token_program_bytes(),
            ) {
                Some(holding) => Some(
                    InstructionView {
                        program_id,
                        accounts: liquidity_accounts(ledger, vault, signer, mint, holding),
                        data: method_data(name, spec_u64_to_le_bytes(amount)),
                    },
                ),
                None => None,
            },
            None => None,
        },
        None => None,
    }
}

/// The instruction of the operation `name` on the whitelist entry of
/// `entry`; `None` where the address of the ledger record or of the entry
/// cannot be derived.
pub open spec fn whitelist_instruction(
    program_id: Seq<u8>,
    signer: Seq<u8>,
    entry: Seq<u8>,
    name: Seq<u8>,
) -> Option<InstructionView> {
    match derived_address(bridge_state_seeds(), program_id) {
        Some(ledger) => match derived_address(whitelist_entry_seeds(entry, ledger), program_id) {
            Some(place) => Some(
                InstructionView {
                    program_id,
                    accounts: whitelist_accounts(place, signer, ledger),
                    data: method_data(name, entry),
                },
            ),
            None => None,
        },
        None => None,
    }
}

/// Builds the instruction of an operation on the ledger record alone.
pub fn build_ledger_instruction(
    program_id: &Address,
    signer: &Address,
    name: &str,
    arguments: Vec<u8>,
) -> (instruction: Option<Instruction>)
    ensures
        instruction_view(instruction) == ledger_instruction(
            program_id@,
            signer@,
            name.spec_bytes(),
            arguments@,
        ),
{
    let ledger = match find_bridge_state_address(program_id) {
        Some((ledger, _)) => ledger,
        None => { return None; },
    };
    let data = method_bytes(name, arguments);
    let mut accounts: Vec<AccountMeta> = Vec::new();
    accounts.push(AccountMeta::new(ledger, false));
    accounts.push(AccountMeta::new_readonly(*signer, true));
    accounts.push(AccountMeta::new_readonly(system_program_id(), false));
    let instruction = Instruction { program_id: *program_id, accounts, data };
    assert(instruction@.accounts =~= ledger_accounts(ledger@, signer@));
    Some(instruction)
}

/// Builds the instruction of an operation that names the whitelisted
/// asset.
pub fn build_vault_instruction(
    program_id: &Address,
    signer: &Address,
    mint: &Address,
    name: &str,
    arguments: Vec<u8>,
) -> (instruction: Option<Instruction>)
    ensures
        instruction_view(instruction) == vault_instruction(
            program_id@,
            signer@,
            mint@,
            name.spec_bytes(),
            arguments@,
        ),
{
    let ledger = match find_bridge_state_address(program_id) {
        Some((ledger, _)) => ledger,
        None => { return None; },
    };
    let vault = match get_associated_token_address(&ledger, mint) {
        Some(vault) => vault,
        None => { return None; },
    };
    let data = method_bytes(name, arguments);
    let mut accounts: Vec<AccountMeta> = Vec::new();
    accounts.push(AccountMeta::new(ledger, false));
    accounts.push(AccountMeta::new(vault, false));
    accounts.push(AccountMeta::new_readonly(*mint, false));
    accounts.push(AccountMeta::new_readonly(*signer, true));
    accounts.push(AccountMeta::new_readonly(system_program_id(), false));
    accounts.push(AccountMeta::new_readonly(token_program_id(), false));
    accounts.push(AccountMeta::new_readonly(associated_token_program_id(), false));
    let instruction = Instruction { program_id: *program_id, accounts, data };
    assert(instruction@.accounts =~= vault_accounts(ledger@, vault@, mint@, signer@));
    Some(instruction)
}

/// Builds the instruction of a top-up or a drain.
pub fn build_liquidity_instruction(
    program_id: &Address,
    signer: &Address,
    mint: &Address,
    name: &str,
    amount: u64,
) -> (instruction: Option<Instruction>)
    ensures
        instruction_view(instruction) == liquidity_instruction(
            program_id@,
            signer@,
            mint@,
            name.spec_bytes(),
            amount,
        ),
{
    let ledger = match find_bridge_state_address(program_id) {
        Some((ledger, _)) => ledger,
        None => { return None; },
    };
    let vault = match get_associated_token_address(&ledger, mint) {
        Some(vault) => vault,
        None => { return None; },
    };
    let holding = match get_associated_token_address(signer, mint) {
        Some(holding) => holding,
        None => { return None; },
    };
    let data = method_bytes(name, u64_to_le_bytes(amount));
    let mut accounts: Vec<AccountMeta> = Vec::new();
    accounts.push(AccountMeta::new(ledger, false));
    accounts.push(AccountMeta::new(vault, false));
    accounts.push(AccountMeta::new_readonly(*signer, true));
    accounts.push(AccountMeta::new_readonly(*mint, false));
    accounts.push(AccountMeta::new(holding, false));
    accounts.push(AccountMeta::new_readonly(system_program_id(), false));
    accounts.push(AccountMeta::new_readonly(token_program_id(), false));
    accounts.push(AccountMeta::new_readonly(associated_token_program_id(), false));
    let instruction = Instruction { program_id: *program_id, accounts, data };
    assert(instruction@.accounts =~= liquidity_accounts(
        ledger@,
        vault@,
        signer@,
        mint@,
        holding@,
    ));
    Some(instruction)
}

/// Builds the instruction of an operation on one whitelist entry.
pub fn build_whitelist_instruction(
    program_id: &Address,
    signer: &Address,
    entry: &Address,
    name: &str,
) -> (instruction: Option<Instruction>)
    ensures
        instruction_view(instruction) == whitelist_instruction(
            program_id@,
            signer@,
            entry@,
            name.spec_bytes(),
        ),
{
    let ledger = match find_bridge_state_address(program_id) {
        Some((ledger, _)) => ledger,
        None => { return None; },
    };
    let place = match find_whitelist_entry_address(entry, &ledger, program_id) {
        Some((place, _)) => place,
        None => { return None; },
    };
    let data = method_bytes(name, entry.to_vec());
    let mut accounts: Vec<AccountMeta> = Vec::new();
    accounts.push(AccountMeta::new(place, false));
    accounts.push(AccountMeta::new_readonly(*signer, true));
    accounts.push(AccountMeta::new(ledger, false));
    accounts.push(AccountMeta::new_readonly(system_program_id(), false));
    let instruction = Instruction { program_id: *program_id, accounts, data };
    assert(instruction@.accounts =~= whitelist_accounts(place@, signer@, ledger@));
    Some(instruction)
}

/// The arguments of the creation of the ledger record, in their order on
/// the wire: the relayer, the fee collector, the fee and the two deposit
/// limits.
pub open spec fn initialize_contract_arguments(
    relayer_pubkey: Seq<u8>,
    fee_collector: Seq<u8>,
    fee_amount: u64,
    minimum_deposit: u64,
    maximum_deposit: u64,
) -> Seq<u8> {
    relayer_pubkey + fee_collector + spec_u64_to_le_bytes(fee_amount) + spec_u64_to_le_bytes(
        minimum_deposit,
    ) + spec_u64_to_le_bytes(maximum_deposit)
}

/// The instruction that creates the ledger record.
pub fn process_initialize_contract(
    signer: &Address,
    program_id: Address,
    relayer_pubkey: Address,
    fee_collector: Address,
    mint_of_token_whitelisted: Address,
    minimum_deposit: u64,
    maximum_deposit: u64,
    fee_amount: u64,
) -> (instruction: Option<Instruction>)
    ensures
        instruction_view(instruction) == vault_instruction(
            program_id@,
            signer@,
            mint_of_token_whitelisted@,
            "initialize_contract".spec_bytes(),
            initialize_contract_arguments(
                relayer_pubkey@,
                fee_collector@,
                fee_amount,
                minimum_deposit,
                maximum_deposit,
            ),
        ),
{
    let mut arguments = relayer_pubkey.to_vec();
    let mut part = fee_collector.to_vec();
    arguments.append(&mut part);
    let mut part = u64_to_le_bytes(fee_amount);
    arguments.append(&mut part);
    let mut part = u64_to_le_bytes(minimum_deposit);
    arguments.append(&mut part);
    let mut part = u64_to_le_bytes(maximum_deposit);
    arguments.append(&mut part);
    build_vault_instruction(
        &program_id,
        signer,
        &mint_of_token_whitelisted,
        "initialize_contract",
        arguments,
    )
}

/// The instruction that names a new relayer.
pub fn process_update_relayer(
    signer: &Address,
    program_id: Address,
    relayer_pubkey: Address,
) -> (instruction: Option<Instruction>)
    ensures
        instruction_view(instruction) == ledger_instruction(
            program_id@,
            signer@,
            "update_relayer".spec_bytes(),
            relayer_pubkey@,
        ),
{
    build_ledger_instruction(&program_id, signer, "update_relayer", relayer_pubkey.to_vec())
}

/// The instruction that whitelists another asset.
pub fn process_update_whitelisted_mint(
    signer: &Address,
    program_id: Address,
    mint_of_token_whitelisted: Address,
) -> (instruction: Option<Instruction>)
    ensures
        instruction_view(instruction) == vault_instruction(
            program_id@,
            signer@,
            mint_of_token_whitelisted@,
            "update_whitelisted_mint".spec_bytes(),
            Seq::empty(),
        ),
{
    build_vault_instruction(
        &program_id,
        signer,
        &mint_of_token_whitelisted,
        "update_whitelisted_mint",
        Vec::new(),
    )
}

/// The instruction that tops the vault up by `amount`.
pub fn process_add_liquidity(
    signer: &Address,
    program_id: Address,
    amount: u64,
    mint_of_token_sent: Address,
) -> (instruction: Option<Instruction>)
    ensures
        instruction_view(instruction) == liquidity_instruction(
            program_id@,
            signer@,
            mint_of_token_sent@,
            "add_liquidity".spec_bytes(),
            amount,
        ),
{
    build_liquidity_instruction(&program_id, signer, &mint_of_token_sent, "add_liquidity", amount)
}

/// The instruction that drains `amount` from the vault.
pub fn process_remove_liquidity(
    signer: &Address,
    program_id: Address,
    amount: u64,
    mint_of_token_sent: Address,
) -> (instruction: Option<Instruction>)
    ensures
        instruction_view(instruction) == liquidity_instruction(
            program_id@,
            signer@,
            mint_of_token_sent@,
            "remove_liquidity".spec_bytes(),
            amount,
        ),
{
    build_liquidity_instruction(
        &program_id,
        signer,
        &mint_of_token_sent,
        "remove_liquidity",
        amount,
    )
}

/// The instruction that replaces both deposit limits.
pub fn process_set_deposit_limits(
    signer: &Address,
    program_id: Address,
    minimum_deposit: u64,
    maximum_deposit: u64,
) -> (instruction: Option<Instruction>)
    ensures
        instruction_view(instruction) == ledger_instruction(
            program_id@,
            signer@,
            "set_deposit_limits".spec_bytes(),
            spec_u64_to_le_bytes(minimum_deposit) + spec_u64_to_le_bytes(maximum_deposit),
        ),
{
    let mut arguments = u64_to_le_bytes(minimum_deposit);
    let mut part = u64_to_le_bytes(maximum_deposit);
    arguments.append(&mut part);
    build_ledger_instruction(&program_id, signer, "set_deposit_limits", arguments)
}

/// The instruction that replaces the fee.
pub fn process_set_fee_amount(
    signer: &Address,
    program_id: Address,
    fee_amount: u64,
) -> (instruction: Option<Instruction>)
    ensures
        instruction_view(instruction) == ledger_instruction(
            program_id@,
            signer@,
            "set_fee_amount".spec_bytes(),
            spec_u64_to_le_bytes(fee_amount),
        ),
{
    build_ledger_instruction(&program_id, signer, "set_fee_amount", u64_to_le_bytes(fee_amount))
}

/// The instruction that switches the public flow off.
pub fn process_public_pause_contract(
    signer: &Address,
    program_id: Address,
) -> (instruction: Option<Instruction>)
    ensures
        instruction_view(instruction) == ledger_instruction(
            program_id@,
            signer@,
            "public_pause".spec_bytes(),
            Seq::empty(),
        ),
{
    build_ledger_instruction(&program_id, signer, "public_pause", Vec::new())
}

/// The instruction that switches the relayer flow off.
pub fn process_relayer_pause(
    signer: &Address,
    program_id: Address,
) -> (instruction: Option<Instruction>)
    ensures
        instruction_view(instruction) == ledger_instruction(
            program_id@,
            signer@,
            "relayer_pause".spec_bytes(),
            Seq::empty(),
        ),
{
    build_ledger_instruction(&program_id, signer, "relayer_pause", Vec::new())
}

/// The instruction that switches the relayer flow on.
pub fn process_relayer_unpause(
    signer: &Address,
    program_id: Address,
) -> (instruction: Option<Instruction>)
    ensures
        instruction_view(instruction) == ledger_instruction(
            program_id@,
            signer@,
            "relayer_unpause".spec_bytes(),
            Seq::empty(),
        ),
{
    build_ledger_instruction(&program_id, signer, "relayer_unpause", Vec::new())
}

/// The instruction that switches the public flow on.
pub fn process_public_unpause_contract(
    signer: &Address,
    program_id: Address,
) -> (instruction: Option<Instruction>)
    ensures
        instruction_view(instruction) == ledger_instruction(
            program_id@,
            signer@,
            "public_unpause".spec_bytes(),
            Seq::empty(),
        ),
{
    build_ledger_instruction(&program_id, signer, "public_unpause", Vec::new())
}

/// The instruction that switches the enforcement of the whitelist on.
pub fn process_set_whitelist_active(
    signer: &Address,
    program_id: Address,
) -> (instruction: Option<Instruction>)
    ensures
        instruction_view(instruction) == ledger_instruction(
            program_id@,
            signer@,
            "set_whitelist_active".spec_bytes(),
            Seq::empty(),
        ),
{
    build_ledger_instruction(&program_id, signer, "set_whitelist_active", Vec::new())
}

/// The instruction that switches the enforcement of the whitelist off.
pub fn process_set_whitelist_inactive(
    signer: &Address,
    program_id: Address,
) -> (instruction: Option<Instruction>)
    ensures
        instruction_view(instruction) == ledger_instruction(
            program_id@,
            signer@,
            "set_whitelist_inactive".spec_bytes(),
            Seq::empty(),
        ),
{
    build_ledger_instruction(&program_id, signer, "set_whitelist_inactive", Vec::new())
}

/// The instruction that approves the counterparty `entry_pk`.
pub fn process_add_to_whitelist(
    signer: &Address,
    program_id: Address,
    entry_pk: Address,
) -> (instruction: Option<Instruction>)
    ensures
        instruction_view(instruction) == whitelist_instruction(
            program_id@,
            signer@,
            entry_pk@,
            "add_to_whitelist".spec_bytes(),
        ),
{
    build_whitelist_instruction(&program_id, signer, &entry_pk, "add_to_whitelist")
}

/// The instruction that withdraws the approval of the counterparty
/// `entry_pk`.
pub fn process_remove_from_whitelist(
    signer: &Address,
    program_id: Address,
    entry_pk: Address,
) -> (instruction: Option<Instruction>)
    ensures
        instruction_view(instruction) == whitelist_instruction(
            program_id@,
            signer@,
            entry_pk@,
            "remove_from_whitelist".spec_bytes(),
        ),
{
    build_whitelist_instruction(&program_id, signer, &entry_pk, "remove_from_whitelist")
}

} // verus!
