use crate::accounts::Account;
use crate::identity::Address;
use crate::states::BridgeState;
use vstd::prelude::*;

verus! {

/// What a change of the deposit limits or of the fee sees: the ledger
/// record and the signer.
#[derive(Clone, Copy, Debug)]
pub struct UpdateLimitsOrFee {
    pub bridge_state: Account<BridgeState>,
    pub authority: Address,
}

impl UpdateLimitsOrFee {
    /// The accounts with both deposit limits replaced.
    pub open spec fn with_deposit_limits(
        self,
        minimum_deposit: u64,
        maximum_deposit: u64,
    ) -> UpdateLimitsOrFee {
        UpdateLimitsOrFee {
            bridge_state: Account {
                key: self.bridge_state.key,
                data: BridgeState { minimum_deposit, maximum_deposit, ..self.bridge_state.data },
            },
            ..self
        }
    }

    /// The accounts with the fee replaced.
    pub open spec fn with_fee_amount(self, fee_amount: u64) -> UpdateLimitsOrFee {
        UpdateLimitsOrFee {
            bridge_state: Account {
                key: self.bridge_state.key,
                data: BridgeState { fee_amount, ..self.bridge_state.data },
            },
            ..self
        }
    }

    /// Replaces both deposit limits together.
    pub fn set_deposit_limits(&mut self, minimum_deposit: u64, maximum_deposit: u64)
        ensures
            *final(self) == old(self).with_deposit_limits(minimum_deposit, maximum_deposit),
    {
        self.bridge_state.data.minimum_deposit = minimum_deposit;
        self.bridge_state.data.maximum_deposit = maximum_deposit;
    }

    /// Replaces the fee that a deposit is charged.
    pub fn set_fee_amount(&mut self, fee_amount: u64)
        ensures
            *final(self) == old(self).with_fee_amount(fee_amount),
    {
        self.bridge_state.data.fee_amount = fee_amount;
    }
}

} // verus!
