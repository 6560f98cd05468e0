pub mod add_to_whitelist;
pub mod remove_from_whitelist;
pub mod whitelist_state;

pub use add_to_whitelist::AddToWhitelist;
pub use remove_from_whitelist::RemoveFromWhitelist;
pub use whitelist_state::WhitelistState;
