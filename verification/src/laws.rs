use crate::accounts::{Account, TokenAccount, Transfer};
use crate::contexts::{
    AddLiquidity, AddToWhitelist, InitializeContract, PublicState, RelayerState,
    RemoveFromWhitelist, RemoveLiquidity, SendFromLiquidity, SendToLiquidity, UpdateFeeCollector,
    UpdateLimitsOrFee, UpdateRelayer, UpdateWhitelistedMint, WhitelistState,
};
use crate::errors::Errors;
use crate::guard::{
    holding_gate, is_administrator, is_relayer, mint_gate, within_limits,
};
use crate::identity::Address;
use crate::states::bridge::{is_active, State};
use crate::utils::is_whole_amount;
use vstd::prelude::*;

verus! {

/// A deposit of a whole amount within the deposit limits succeeds and adds
/// exactly the amount to the cached vault balance, leaving the rest of the
/// ledger record as it was. It is stated of deposits that the other gates
/// admit: accounts at their addresses, the public flow switched on, the
/// whitelist and the fee accounts in order, and the custody sound.
pub proof fn lemma_legal_deposit_succeeds(ctx: SendToLiquidity, amount: u64)
    requires
        within_limits(ctx.bridge_state.data, amount),
        is_whole_amount(amount, ctx.mint_of_token_sent.data.decimals),
        ctx.resolves(),
        is_active(ctx.bridge_state.data.public_state),
        ctx.whitelist_gate() is Ok,
        ctx.fee_accounts_gate() is Ok,
        ctx.custody_gate(amount) is Ok,
    ensures
        ctx.outcome(ctx.resolves(), amount) == Ok::<_, Errors>(ctx.transfers(amount)),
        ctx.after(ctx.resolves(), amount).bridge_state.data.vault_amount
            == ctx.bridge_state.data.vault_amount + amount,
        ctx.after(ctx.resolves(), amount) == ctx.credited(amount),
{
}

/// A deposit of an amount outside the deposit limits is refused as out of
/// range, and nothing changes. It is stated of deposits that come as far as
/// the limits: accounts at their addresses, the public flow switched on, a
/// whole amount, and the whitelist and the fee accounts in order.
pub proof fn lemma_deposit_out_of_range_refused(ctx: SendToLiquidity, amount: u64)
    requires
        !within_limits(ctx.bridge_state.data, amount),
        ctx.resolves(),
        is_active(ctx.bridge_state.data.public_state),
        is_whole_amount(amount, ctx.mint_of_token_sent.data.decimals),
        ctx.whitelist_gate() is Ok,
        ctx.fee_accounts_gate() is Ok,
    ensures
        ctx.outcome(ctx.resolves(), amount) == Err::<Seq<Transfer>, Errors>(
            Errors::PaymentAmountNotInAcceptedRange,
        ),
        ctx.after(ctx.resolves(), amount) == ctx,
{
}

/// A deposit of an amount that is not a whole number of units is refused
/// as such, within the deposit limits or not, and nothing changes. It is
/// stated of deposits that come as far as that question: accounts at their
/// addresses and the public flow switched on.
pub proof fn lemma_deposit_not_whole_refused(ctx: SendToLiquidity, amount: u64)
    requires
        !is_whole_amount(amount, ctx.mint_of_token_sent.data.decimals),
        ctx.resolves(),
        is_active(ctx.bridge_state.data.public_state),
    ensures
        ctx.outcome(ctx.resolves(), amount) == Err::<Seq<Transfer>, Errors>(Errors::NotWholeNumber),
        ctx.after(ctx.resolves(), amount) == ctx,
{
}

/// While the public flow is switched off, every deposit is refused as
/// paused, whatever the amount, and nothing changes. It is stated of
/// deposits whose accounts lie at their addresses.
pub proof fn lemma_deposit_while_paused_refused(ctx: SendToLiquidity, amount: u64)
    requires
        !is_active(ctx.bridge_state.data.public_state),
        ctx.resolves(),
    ensures
        ctx.outcome(ctx.resolves(), amount) == Err::<Seq<Transfer>, Errors>(Errors::ProgramIsPaused),
        ctx.after(ctx.resolves(), amount) == ctx,
{
}

/// The same deposit with `approval`'s whitelist entry as the depositor's.
pub open spec fn deposit_with_entry(
    deposit: SendToLiquidity,
    approval: AddToWhitelist,
) -> SendToLiquidity {
    SendToLiquidity { whitelist: approval.whitelist_entry.occupant(), ..deposit }
}

/// The withdrawal of the approval that `approval` has made.
pub open spec fn withdrawal_of(approval: AddToWhitelist) -> RemoveFromWhitelist {
    RemoveFromWhitelist {
        whitelist_entry: approval.whitelist_entry,
        authority: approval.authority,
        bridge_state: approval.bridge_state,
    }
}

/// While the whitelist is enforced, a deposit by a counterparty without an
/// entry is refused as not whitelisted; once the administrator has approved
/// the counterparty, the same deposit succeeds; once the approval is
/// withdrawn, it is refused again. It is stated of a deposit that the other
/// gates admit, and of an approval by the administrator for this depositor
/// on this ledger record, into a place that is empty.
pub proof fn lemma_whitelist_decides_deposit(
    deposit: SendToLiquidity,
    approval: AddToWhitelist,
    amount: u64,
)
    requires
        is_active(deposit.bridge_state.data.whitelist_state),
        !deposit.whitelisted(),
        deposit.resolves(),
        is_active(deposit.bridge_state.data.public_state),
        is_whole_amount(amount, deposit.mint_of_token_sent.data.decimals),
        deposit.fee_accounts_gate() is Ok,
        within_limits(deposit.bridge_state.data, amount),
        deposit.custody_gate(amount) is Ok,
        approval.bridge_state == deposit.bridge_state,
        approval.resolves(deposit.authority),
        is_administrator(approval.authority),
        approval.whitelist_entry.data is None,
    ensures
        deposit.outcome(deposit.resolves(), amount) == Err::<Seq<Transfer>, Errors>(Errors::NotWhitelisted),
        ({
            let approved = approval.after(approval.resolves(deposit.authority), deposit.authority);
            let second = deposit_with_entry(deposit, approved);
            let removal = withdrawal_of(approved);
            let withdrawn = removal.after(removal.resolves(deposit.authority));
            let third = SendToLiquidity {
                whitelist: withdrawn.whitelist_entry.occupant(),
                ..second.after(second.resolves(), amount)
            };
            &&& approval.admission(approval.resolves(deposit.authority)) is Ok
            &&& second.resolves()
            &&& second.outcome(second.resolves(), amount) is Ok
            &&& removal.admission(removal.resolves(deposit.authority)) is Ok
            &&& third.resolves()
            &&& third.outcome(third.resolves(), amount) == Err::<Seq<Transfer>, Errors>(
                Errors::NotWhitelisted,
            )
        }),
{
}

/// An outbound transfer that another identity than the relayer signs is
/// refused as not privileged; one that the relayer signs while the relayer
/// flow is switched off is refused as paused; one that the relayer signs
/// while the flow is switched on, from a vault that holds the amount,
/// succeeds and takes exactly the amount from the cached vault balance. It
/// is stated of transfers whose accounts lie at their addresses; the last
/// part of those whose asset, vault and receiving account are in order and
/// whose cached balance covers the amount.
pub proof fn lemma_outbound_transfer(ctx: SendFromLiquidity, amount: u64, receiver: Address)
    requires
        ctx.resolves(),
    ensures
        !is_relayer(ctx.bridge_state.data, ctx.authority) ==> ctx.outcome(
            ctx.resolves(),
            amount,
            receiver,
        ) == Err::<Transfer, Errors>(Errors::NotPrivileged),
        is_relayer(ctx.bridge_state.data, ctx.authority) && !is_active(
            ctx.bridge_state.data.relayer_state,
        ) ==> ctx.outcome(ctx.resolves(), amount, receiver) == Err::<Transfer, Errors>(
            Errors::ProgramIsPaused,
        ),
        ctx.admission(ctx.resolves(), amount, receiver) is Err ==> ctx.after(
            ctx.resolves(),
            amount,
            receiver,
        ) == ctx,
        ({
            &&& is_relayer(ctx.bridge_state.data, ctx.authority)
            &&& is_active(ctx.bridge_state.data.relayer_state)
            &&& mint_gate(ctx.bridge_state.data, ctx.mint_of_token_sent.key) is Ok
            &&& holding_gate(
                ctx.vault.data,
                ctx.bridge_state.key,
                ctx.mint_of_token_sent.key,
                amount,
            ) is Ok
            &&& holding_gate(
                ctx.receiver_token_account.data,
                receiver,
                ctx.bridge_state.data.mint_of_token_whitelisted,
                0,
            ) is Ok
            &&& amount <= ctx.bridge_state.data.vault_amount
        }) ==> {
            &&& ctx.outcome(ctx.resolves(), amount, receiver) == Ok::<_, Errors>(
                ctx.transfer(amount),
            )
            &&& ctx.after(ctx.resolves(), amount, receiver).bridge_state.data.vault_amount
                == ctx.bridge_state.data.vault_amount - amount
            &&& ctx.after(ctx.resolves(), amount, receiver) == ctx.debited(amount)
        },
{
}

/// The accounts of the drain that undoes the top-up `add` of `amount`: the
/// same administrator, asset and accounts, with the ledger record as the
/// top-up left it and the amount moved from the administrator's holding to
/// the vault.
pub open spec fn drain_after(add: AddLiquidity, amount: u64) -> RemoveLiquidity {
    RemoveLiquidity {
        bridge_state: add.credited(amount).bridge_state,
        vault: Account {
            key: add.vault.key,
            data: TokenAccount {
                amount: (add.vault.data.amount + amount) as u64,
                ..add.vault.data
            },
        },
        authority: add.authority,
        mint_of_token_sent: add.mint_of_token_sent,
        authority_token_account: Account {
            key: add.authority_token_account.key,
            data: TokenAccount {
                amount: (add.authority_token_account.data.amount - amount) as u64,
                ..add.authority_token_account.data
            },
        },
    }
}

/// A top-up of an amount followed by a drain of the same amount, by the
/// same administrator, leaves the cached vault balance, and with it the
/// whole ledger record, as it was before. It is stated of a top-up that
/// succeeds into a vault that can hold the amount.
pub proof fn lemma_liquidity_round_trip(add: AddLiquidity, amount: u64)
    requires
        add.admission(add.resolves(), amount) is Ok,
        add.vault.data.amount + amount <= u64::MAX,
    ensures
        ({
            let drain = drain_after(add, amount);
            &&& add.after(add.resolves(), amount).bridge_state == drain.bridge_state
            &&& drain.resolves()
            &&& drain.outcome(drain.resolves(), amount) is Ok
            &&& drain.after(drain.resolves(), amount).bridge_state == add.bridge_state
        }),
{
}

/// An approval that has succeeded cannot be made a second time: for the
/// same counterparty on the same ledger record the second one is refused,
/// and the entry that the first one wrote stays as it is.
pub proof fn lemma_second_approval_refused(ctx: AddToWhitelist, address: Address)
    requires
        ctx.admission(ctx.resolves(address)) is Ok,
    ensures
        ({
            let approved = ctx.after(ctx.resolves(address), address);
            &&& approved.whitelist_entry.data == Some(ctx.entry(address))
            &&& approved.admission(approved.resolves(address)) == Err::<(), _>(
                Errors::AccountAlreadyExists,
            )
            &&& approved.after(approved.resolves(address), address) == approved
        }),
{
}

/// A withdrawal of an approval that is not there is refused, and a
/// withdrawal that has succeeded cannot be made a second time.
pub proof fn lemma_second_withdrawal_refused(ctx: RemoveFromWhitelist, address: Address)
    requires
        ctx.admission(ctx.resolves(address)) is Ok,
    ensures
        ({
            let withdrawn = ctx.after(ctx.resolves(address));
            &&& withdrawn.whitelist_entry.data is None
            &&& withdrawn.admission(withdrawn.resolves(address)) == Err::<(), _>(
                Errors::AccountNotFound,
            )
        }),
{
}

/// The ledger record is created with all three flows switched off, an
/// empty cached balance and switches that hold one of their two values; and
/// it is created once: where the record is there, a second creation is
/// refused.
pub proof fn lemma_creation(
    ctx: InitializeContract,
    bump: u8,
    relayer_pubkey: Address,
    fee_collector: Address,
    fee_amount: u64,
    minimum_deposit: u64,
    maximum_deposit: u64,
)
    ensures
        ({
            let state = ctx.initial_state(
                bump,
                relayer_pubkey,
                fee_collector,
                fee_amount,
                minimum_deposit,
                maximum_deposit,
            );
            &&& state.well_formed()
            &&& !is_active(state.relayer_state)
            &&& !is_active(state.public_state)
            &&& !is_active(state.whitelist_state)
            &&& state.vault_amount == 0
            &&& ctx.holding(state).admission(true) is Err
        }),
{
}

/// Every change of the configuration is idempotent: made twice with the
/// same values it leaves the ledger record as it is after the first time.
pub proof fn lemma_updates_idempotent(
    relayer: UpdateRelayer,
    collector: UpdateFeeCollector,
    limits: UpdateLimitsOrFee,
    mint: UpdateWhitelistedMint,
    identity: Address,
    first: u64,
    second: u64,
)
    ensures
        relayer.with_relayer(identity).with_relayer(identity) == relayer.with_relayer(identity),
        collector.with_fee_collector(identity).with_fee_collector(identity)
            == collector.with_fee_collector(identity),
        limits.with_deposit_limits(first, second).with_deposit_limits(first, second)
            == limits.with_deposit_limits(first, second),
        limits.with_fee_amount(first).with_fee_amount(first) == limits.with_fee_amount(first),
        mint.repointed().repointed() == mint.repointed(),
{
}

/// The three switches are independent: a flip of one leaves the other two
/// and the rest of the ledger record as they were, and a record whose
/// switches hold one of their two values keeps such switches.
pub proof fn lemma_switches_independent(
    relayer: RelayerState,
    public: PublicState,
    whitelist: WhitelistState,
    state: State,
)
    ensures
        relayer.with_relayer_state(state).bridge_state.data.public_state
            == relayer.bridge_state.data.public_state,
        relayer.with_relayer_state(state).bridge_state.data.whitelist_state
            == relayer.bridge_state.data.whitelist_state,
        public.with_public_state(state).bridge_state.data.relayer_state
            == public.bridge_state.data.relayer_state,
        public.with_public_state(state).bridge_state.data.whitelist_state
            == public.bridge_state.data.whitelist_state,
        whitelist.with_whitelist_state(state).bridge_state.data.relayer_state
            == whitelist.bridge_state.data.relayer_state,
        whitelist.with_whitelist_state(state).bridge_state.data.public_state
            == whitelist.bridge_state.data.public_state,
        is_active(relayer.with_relayer_state(state).bridge_state.data.relayer_state) == (state
            == State::Active),
        is_active(public.with_public_state(state).bridge_state.data.public_state) == (state
            == State::Active),
        is_active(whitelist.with_whitelist_state(state).bridge_state.data.whitelist_state) == (
        state == State::Active),
        relayer.bridge_state.data.well_formed() ==> relayer.with_relayer_state(
            state,
        ).bridge_state.data.well_formed(),
        public.bridge_state.data.well_formed() ==> public.with_public_state(
            state,
        ).bridge_state.data.well_formed(),
        whitelist.bridge_state.data.well_formed() ==> whitelist.with_whitelist_state(
            state,
        ).bridge_state.data.well_formed(),
{
}

/// The vault as the token service leaves it once it has made `transfer`:
/// what arrives is added, what leaves is taken away.
pub open spec fn settled(vault: Account<TokenAccount>, transfer: Transfer) -> int {
    if transfer.to@ == vault.key@ && transfer.from@ != vault.key@ {
        vault.data.amount + transfer.amount
    } else if transfer.from@ == vault.key@ && transfer.to@ != vault.key@ {
        vault.data.amount - transfer.amount
    } else {
        vault.data.amount as int
    }
}

/// The cached vault balance follows the custody: where it mirrored what
/// the vault holds before a top-up, a drain or an outbound transfer, it
/// mirrors what the vault holds once the movement handed out is made. It is
/// stated of operations that succeed, between a vault and another account.
pub proof fn lemma_cache_follows_custody(
    add: AddLiquidity,
    remove: RemoveLiquidity,
    send: SendFromLiquidity,
    amount: u64,
    receiver: Address,
)
    ensures
        ({
            &&& add.admission(add.resolves(), amount) is Ok
            &&& add.bridge_state.data.vault_amount == add.vault.data.amount
            &&& add.authority_token_account.key@ != add.vault.key@
        }) ==> add.after(add.resolves(), amount).bridge_state.data.vault_amount == settled(
            add.vault,
            add.transfer(amount),
        ),
        ({
            &&& remove.admission(remove.resolves(), amount) is Ok
            &&& remove.bridge_state.data.vault_amount == remove.vault.data.amount
            &&& remove.authority_token_account.key@ != remove.vault.key@
        }) ==> remove.after(remove.resolves(), amount).bridge_state.data.vault_amount == settled(
            remove.vault,
            remove.transfer(amount),
        ),
        ({
            &&& send.admission(send.resolves(), amount, receiver) is Ok
            &&& send.bridge_state.data.vault_amount == send.vault.data.amount
            &&& send.receiver_token_account.key@ != send.vault.key@
        }) ==> send.after(send.resolves(), amount, receiver).bridge_state.data.vault_amount
            == settled(send.vault, send.transfer(amount)),
{
}

/// The cached vault balance follows a deposit too: where it mirrored what
/// the vault holds before, it mirrors what the vault holds once the
/// principal has arrived. It is stated of deposits that succeed from another
/// account than the vault; the fee is left aside, which goes to the
/// collector.
pub proof fn lemma_cache_follows_deposit(ctx: SendToLiquidity, amount: u64)
    requires
        ctx.admission(ctx.resolves(), amount) is Ok,
        ctx.bridge_state.data.vault_amount == ctx.vault.data.amount,
        ctx.authority_token_account.key@ != ctx.vault.key@,
    ensures
        ctx.transfers(amount).last() == ctx.principal_transfer(amount),
        ctx.after(ctx.resolves(), amount).bridge_state.data.vault_amount == settled(
            ctx.vault,
            ctx.principal_transfer(amount),
        ),
{
}

/// The change of the whitelisted asset takes the cached balance from the
/// new vault itself: whatever it was before, afterwards it mirrors what that
/// vault holds, and the record names that vault.
pub proof fn lemma_cache_resynchronised(ctx: UpdateWhitelistedMint)
    ensures
        ctx.repointed().bridge_state.data.vault_amount == ctx.vault.data.amount,
        ctx.repointed().bridge_state.data.vault@ == ctx.vault.key@,
        ctx.repointed().bridge_state.data.mint_of_token_whitelisted@
            == ctx.mint_of_token_whitelisted.key@,
{
}

/// No operation touches a switch that is not its own: after a deposit, an
/// outbound transfer, a top-up, a drain or a change of the configuration the
/// three switches are what they were, so a record whose switches hold one of
/// their two values keeps such switches.
pub proof fn lemma_switches_kept(
    deposit: SendToLiquidity,
    send: SendFromLiquidity,
    add: AddLiquidity,
    remove: RemoveLiquidity,
    relayer: UpdateRelayer,
    collector: UpdateFeeCollector,
    limits: UpdateLimitsOrFee,
    mint: UpdateWhitelistedMint,
    identity: Address,
    first: u64,
    second: u64,
    resolved: bool,
)
    ensures
        deposit.bridge_state.data.well_formed() ==> deposit.after(
            resolved,
            first,
        ).bridge_state.data.well_formed(),
        send.bridge_state.data.well_formed() ==> send.after(
            resolved,
            first,
            identity,
        ).bridge_state.data.well_formed(),
        add.bridge_state.data.well_formed() ==> add.after(
            resolved,
            first,
        ).bridge_state.data.well_formed(),
        remove.bridge_state.data.well_formed() ==> remove.after(
            resolved,
            first,
        ).bridge_state.data.well_formed(),
        relayer.bridge_state.data.well_formed() ==> relayer.with_relayer(
            identity,
        ).bridge_state.data.well_formed(),
        collector.bridge_state.data.well_formed() ==> collector.with_fee_collector(
            identity,
        ).bridge_state.data.well_formed(),
        limits.bridge_state.data.well_formed() ==> limits.with_deposit_limits(
            first,
            second,
        ).bridge_state.data.well_formed(),
        limits.bridge_state.data.well_formed() ==> limits.with_fee_amount(
            first,
        ).bridge_state.data.well_formed(),
        mint.bridge_state.data.well_formed() ==> mint.repointed().bridge_state.data.well_formed(),
{
}

} // verus!
