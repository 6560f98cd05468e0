use crate::accounts::Account;
use crate::identity::Address;
use crate::states::BridgeState;
use vstd::prelude::*;

verus! {

/// What the change of the fee collector sees: the ledger record and the
/// signer.
#[derive(Clone, Copy, Debug)]
pub struct UpdateFeeCollector {
    pub bridge_state: Account<BridgeState>,
    pub authority: Address,
}

impl UpdateFeeCollector {
    /// The accounts with `fee_collector` as the fee collector.
    pub open spec fn with_fee_collector(self, fee_collector: Address) -> UpdateFeeCollector {
        UpdateFeeCollector {
            bridge_state: Account {
                key: self.bridge_state.key,
                data: BridgeState { fee_collector, ..self.bridge_state.data },
            },
            ..self
        }
    }

    /// Names a new fee collector.
    pub fn update_fee_collector(&mut self, fee_collector: Address)
        ensures
            *final(self) == old(self).with_fee_collector(fee_collector),
    {
        self.bridge_state.data.fee_collector = fee_collector;
    }
}

} // verus!
