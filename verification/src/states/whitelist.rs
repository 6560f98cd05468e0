use crate::identity::Address;
use vstd::prelude::*;

verus! {

/// The approval of one counterparty on one ledger record. That the entry
/// exists is what a deposit asks; what it holds only says whose it is.
#[derive(Clone, Copy, Debug)]
pub struct WhitelistEntry {
    pub whitelist_address: Address,
    pub bridge_state_address: Address,
}

} // verus!
