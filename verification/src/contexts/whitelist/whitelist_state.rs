use crate::accounts::Account;
use crate::identity::Address;
use crate::states::bridge::State;
use crate::states::BridgeState;
use vstd::prelude::*;

verus! {

/// What a flip of the whitelist's switch sees: the ledger record and the
/// signer.
#[derive(Clone, Copy, Debug)]
pub struct WhitelistState {
    pub bridge_state: Account<BridgeState>,
    pub authority: Address,
}

impl WhitelistState {
    /// The accounts with the switch of the whitelist set to `state`.
    pub open spec fn with_whitelist_state(self, state: State) -> WhitelistState {
        WhitelistState {
            bridge_state: Account {
                key: self.bridge_state.key,
                data: BridgeState { whitelist_state: state.code(), ..self.bridge_state.data },
            },
            ..self
        }
    }

    /// Switches the enforcement of the whitelist on.
    pub fn set_whitelist_active(&mut self)
        ensures
            *final(self) == old(self).with_whitelist_state(State::Active),
    {
        self.bridge_state.data.whitelist_state = State::Active.to_code();
    }

    /// Switches the enforcement of the whitelist off.
    pub fn set_whitelist_inactive(&mut self)
        ensures
            *final(self) == old(self).with_whitelist_state(State::Inactive),
    {
        self.bridge_state.data.whitelist_state = State::Inactive.to_code();
    }
}

} // verus!
