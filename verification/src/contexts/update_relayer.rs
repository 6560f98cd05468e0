use crate::accounts::Account;
use crate::identity::Address;
use crate::states::BridgeState;
use vstd::prelude::*;

verus! {

/// What the change of the relayer sees: the ledger record and the signer.
#[derive(Clone, Copy, Debug)]
pub struct UpdateRelayer {
    pub bridge_state: Account<BridgeState>,
    pub authority: Address,
}

impl UpdateRelayer {
    /// The accounts with `relayer_pubkey` as the relayer.
    pub open spec fn with_relayer(self, relayer_pubkey: Address) -> UpdateRelayer {
        UpdateRelayer {
            bridge_state: Account {
                key: self.bridge_state.key,
                data: BridgeState { relayer_pubkey, ..self.bridge_state.data },
            },
            ..self
        }
    }

    /// Names a new relayer.
    pub fn update_relayer(&mut self, relayer_pubkey: Address)
        ensures
            *final(self) == old(self).with_relayer(relayer_pubkey),
    {
        self.bridge_state.data.relayer_pubkey = relayer_pubkey;
    }
}

} // verus!
