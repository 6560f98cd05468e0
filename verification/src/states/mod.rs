pub mod bridge;
pub mod stage;
pub mod whitelist;

pub use bridge::BridgeState;
pub use stage::Stage;
pub use whitelist::WhitelistEntry;
