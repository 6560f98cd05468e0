use crate::accounts::Account;
use crate::errors::Errors;
use crate::guard::{
    administrator_or_relayer_gate, both, require_administrator_or_relayer, resolution_gate,
};
use crate::identity::Address;
use crate::states::bridge::State;
use crate::states::BridgeState;
use vstd::prelude::*;

verus! {

/// What a flip of the relayer flow's switch sees: the ledger record and the
/// signer.
#[derive(Clone, Copy, Debug)]
pub struct RelayerState {
    pub bridge_state: Account<BridgeState>,
    pub authority: Address,
}

impl RelayerState {
    /// The accounts with the switch of the relayer flow set to `state`.
    pub open spec fn with_relayer_state(self, state: State) -> RelayerState {
        RelayerState {
            bridge_state: Account {
                key: self.bridge_state.key,
                data: BridgeState { relayer_state: state.code(), ..self.bridge_state.data },
            },
            ..self
        }
    }

    /// Whether the switch may be flipped: the record's address, then the
    /// role, which the administrator and the relayer both hold.
    pub open spec fn admission(self, resolved: bool) -> Result<(), Errors> {
        both(
            resolution_gate(resolved),
            administrator_or_relayer_gate(self.bridge_state.data, self.authority),
        )
    }

    /// Asks the gates of a flip of the relayer flow's switch.
    pub fn check(&self, resolved: bool) -> (admitted: Result<(), Errors>)
        ensures
            admitted == self.admission(resolved),
    {
        if !resolved {
            return Err(Errors::AddressMismatch);
        }
        require_administrator_or_relayer(&self.bridge_state.data, &self.authority)
    }

    /// Switches the relayer flow off.
    pub fn relayer_pause(&mut self)
        ensures
            *final(self) == old(self).with_relayer_state(State::Inactive),
    {
        self.bridge_state.data.relayer_state = State::Inactive.to_code();
    }

    /// Switches the relayer flow on.
    pub fn relayer_unpause(&mut self)
        ensures
            *final(self) == old(self).with_relayer_state(State::Active),
    {
        self.bridge_state.data.relayer_state = State::Active.to_code();
    }
}

/// What a flip of the public flow's switch sees: the ledger record and the
/// signer.
#[derive(Clone, Copy, Debug)]
pub struct PublicState {
    pub bridge_state: Account<BridgeState>,
    pub authority: Address,
}

impl PublicState {
    /// The accounts with the switch of the public flow set to `state`.
    pub open spec fn with_public_state(self, state: State) -> PublicState {
        PublicState {
            bridge_state: Account {
                key: self.bridge_state.key,
                data: BridgeState { public_state: state.code(), ..self.bridge_state.data },
            },
            ..self
        }
    }

    /// Switches the public flow off.
    pub fn public_pause(&mut self)
        ensures
            *final(self) == old(self).with_public_state(State::Inactive),
    {
        self.bridge_state.data.public_state = State::Inactive.to_code();
    }

    /// Switches the public flow on.
    pub fn public_unpause(&mut self)
        ensures
            *final(self) == old(self).with_public_state(State::Active),
    {
        self.bridge_state.data.public_state = State::Active.to_code();
    }
}

} // verus!
