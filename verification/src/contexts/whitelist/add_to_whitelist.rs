use crate::accounts::{Account, AccountSlot};
use crate::errors::Errors;
use crate::guard::{
    administrator_gate, both, ledger_resolves, require_administrator, resolution_gate,
    resolve_ledger,
};
use crate::identity::{check_whitelist_entry_address, is_whitelist_entry_address, Address};
use crate::states::{BridgeState, WhitelistEntry};
use vstd::prelude::*;

verus! {

/// What the approval of a counterparty sees: the place of the entry, the
/// signer and the ledger record.
#[derive(Clone, Copy, Debug)]
pub struct AddToWhitelist {
    pub whitelist_entry: AccountSlot<WhitelistEntry>,
    pub authority: Address,
    pub bridge_state: Account<BridgeState>,
}

impl AddToWhitelist {
    /// The ledger record lies at its derived address, and the place of the
    /// entry at the address derived for `address` on this ledger record.
    pub open spec fn resolves(self, address: Address) -> bool {
        &&& ledger_resolves(self.bridge_state)
        &&& is_whitelist_entry_address(self.whitelist_entry.key, address, self.bridge_state.key)
    }

    /// The place of the entry is still empty: a second approval is refused,
    /// not passed over.
    pub open spec fn vacancy_gate(self) -> Result<(), Errors> {
        if self.whitelist_entry.data is Some {
            Err(Errors::AccountAlreadyExists)
        } else {
            Ok(())
        }
    }

    /// Whether the entry may be created: the addresses, the role, then the
    /// empty place.
    pub open spec fn admission(self, resolved: bool) -> Result<(), Errors> {
        both(
            resolution_gate(resolved),
            both(administrator_gate(self.authority), self.vacancy_gate()),
        )
    }

    /// The entry of `address` on this ledger record.
    pub open spec fn entry(self, address: Address) -> WhitelistEntry {
        WhitelistEntry { whitelist_address: address, bridge_state_address: self.bridge_state.key }
    }

    /// The accounts once the entry of `address` lies in its place.
    pub open spec fn approved(self, address: Address) -> AddToWhitelist {
        AddToWhitelist {
            whitelist_entry: AccountSlot {
                key: self.whitelist_entry.key,
                data: Some(self.entry(address)),
            },
            ..self
        }
    }

    /// The accounts after the approval of `address` was asked for.
    pub open spec fn after(self, resolved: bool, address: Address) -> AddToWhitelist {
        if self.admission(resolved) is Ok {
            self.approved(address)
        } else {
            self
        }
    }

    /// Derives the addresses again and holds the accounts against them.
    pub fn resolve(&self, address: &Address) -> (resolved: bool)
        ensures
            resolved == self.resolves(*address),
    {
        resolve_ledger(&self.bridge_state) && check_whitelist_entry_address(
            &self.whitelist_entry.key,
            address,
            &self.bridge_state.key,
        )
    }

    /// Asks the gates of the approval, in their order.
    pub fn check(&self, resolved: bool) -> (admitted: Result<(), Errors>)
        ensures
            admitted == self.admission(resolved),
    {
        if !resolved {
            return Err(Errors::AddressMismatch);
        }
        require_administrator(&self.authority)?;
        if self.whitelist_entry.data.is_some() {
            return Err(Errors::AccountAlreadyExists);
        }
        Ok(())
    }

    /// Writes the entry of `address` into its place.
    pub fn add_to_whitelist(&mut self, address: Address)
        ensures
            *final(self) == old(self).approved(address),
    {
        self.whitelist_entry.data = Some(
            WhitelistEntry {
                whitelist_address: address,
                bridge_state_address: self.bridge_state.key,
            },
        );
    }
}

} // verus!
