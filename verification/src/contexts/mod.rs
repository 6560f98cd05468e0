pub mod add_liquidity;
pub mod contract_states;
pub mod deposit_limits;
pub mod initialize_contract;
pub mod remove_liquidity;
pub mod send_from_liquidity;
pub mod send_to_liquidity;
pub mod update_fee_collector;
pub mod update_relayer;
pub mod update_whitelisted_mint;
pub mod whitelist;

pub use add_liquidity::AddLiquidity;
pub use contract_states::{PublicState, RelayerState};
pub use deposit_limits::UpdateLimitsOrFee;
pub use initialize_contract::{InitializeContract, InitializeContractBumps};
pub use remove_liquidity::RemoveLiquidity;
pub use send_from_liquidity::SendFromLiquidity;
pub use send_to_liquidity::SendToLiquidity;
pub use update_fee_collector::UpdateFeeCollector;
pub use update_relayer::UpdateRelayer;
pub use update_whitelisted_mint::UpdateWhitelistedMint;
pub use whitelist::{AddToWhitelist, RemoveFromWhitelist, WhitelistState};
