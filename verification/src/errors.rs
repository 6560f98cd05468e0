use vstd::prelude::*;

verus! {

/// Why an operation was refused. A refused operation changes nothing.
#[derive(Clone, Copy, Debug, PartialEq, Eq, Structural)]
pub enum Errors {
    /// The flow that the operation belongs to is switched off.
    ProgramIsPaused,
    /// The amount lies outside the deposit limits.
    PaymentAmountNotInAcceptedRange,
    /// The whitelist is enforced and the depositor has no entry on it.
    NotWhitelisted,
    /// The amount is not a whole number of units of the asset.
    NotWholeNumber,
    /// The signer does not hold the role that the operation asks for.
    NotPrivileged,
    /// The account that is to pay holds less than the amount.
    NotEnoughBalance,
    /// A supplied token account belongs to another owner than it should.
    OwnerMismatch,
    /// A supplied mint or token account is of another asset than it should.
    MintMismatch,
    /// The supplied fee collector is not the one the ledger record names.
    FeeCollectorMismatch,
    /// A fee is due and the accounts that it needs were left out.
    NoFeeAccountsProvided,
    /// A supplied account does not lie at the address derived for it.
    AddressMismatch,
    /// The record that is to be created exists already.
    AccountAlreadyExists,
    /// The record that is to be removed does not exist.
    AccountNotFound,
    /// The cached vault balance would exceed what it can hold.
    BalanceOverflow,
}

} // verus!
