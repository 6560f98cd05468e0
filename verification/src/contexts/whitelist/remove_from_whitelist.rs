use crate::accounts::{Account, AccountSlot};
use crate::errors::Errors;
use crate::guard::{
    administrator_gate, both, ledger_resolves, require_administrator, resolution_gate,
    resolve_ledger,
};
use crate::identity::{check_whitelist_entry_address, is_whitelist_entry_address, Address};
use crate::states::{BridgeState, WhitelistEntry};
use vstd::prelude::*;

verus! {

/// What the withdrawal of an approval sees: the place of the entry, the
/// signer and the ledger record.
#[derive(Clone, Copy, Debug)]
pub struct RemoveFromWhitelist {
    pub whitelist_entry: AccountSlot<WhitelistEntry>,
    pub authority: Address,
    pub bridge_state: Account<BridgeState>,
}

impl RemoveFromWhitelist {
    /// The ledger record lies at its derived address, and the place of the
    /// entry at the address derived for `address` on this ledger record.
    pub open spec fn resolves(self, address: Address) -> bool {
        &&& ledger_resolves(self.bridge_state)
        &&& is_whitelist_entry_address(self.whitelist_entry.key, address, self.bridge_state.key)
    }

    /// There is an entry in the place.
    pub open spec fn presence_gate(self) -> Result<(), Errors> {
        if self.whitelist_entry.data is None {
            Err(Errors::AccountNotFound)
        } else {
            Ok(())
        }
    }

    /// Whether the entry may be removed: the addresses, the role, then the
    /// entry itself.
    pub open spec fn admission(self, resolved: bool) -> Result<(), Errors> {
        both(
            resolution_gate(resolved),
            both(administrator_gate(self.authority), self.presence_gate()),
        )
    }

    /// The accounts once the place of the entry is empty.
    pub open spec fn withdrawn(self) -> RemoveFromWhitelist {
        RemoveFromWhitelist {
            whitelist_entry: AccountSlot { key: self.whitelist_entry.key, data: None },
            ..self
        }
    }

    /// The accounts after the withdrawal was asked for.
    pub open spec fn after(self, resolved: bool) -> RemoveFromWhitelist {
        if self.admission(resolved) is Ok {
            self.withdrawn()
        } else {
            self
        }
    }

    /// Derives the addresses again and holds the accounts against them.
    pub fn resolve(&self, address: &Address) -> (resolved: bool)
        ensures
            resolved == self.resolves(*address),
    {
        resolve_ledger(&self.bridge_state) && check_whitelist_entry_address(
            &self.whitelist_entry.key,
            address,
            &self.bridge_state.key,
        )
    }

    /// Asks the gates of the withdrawal, in their order.
    pub fn check(&self, resolved: bool) -> (admitted: Result<(), Errors>)
        ensures
            admitted == self.admission(resolved),
    {
        if !resolved {
            return Err(Errors::AddressMismatch);
        }
        require_administrator(&self.authority)?;
        if self.whitelist_entry.data.is_none() {
            return Err(Errors::AccountNotFound);
        }
        Ok(())
    }

    /// Empties the place of the entry of `_address`.
    pub fn remove_from_whitelist(&mut self, _address: Address)
        ensures
            *final(self) == old(self).withdrawn(),
    {
        self.whitelist_entry.data = None;
    }
}

} // verus!
