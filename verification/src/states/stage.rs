use vstd::prelude::*;

verus! {

/// How far a single bridging has come.
#[derive(Clone, Copy, Debug, PartialEq, Eq, Structural)]
pub enum Stage {
    BridgeInitialized,
    BridgeComplete,
}

impl Stage {
    /// The code under which a stage is stored.
    pub open spec fn code(self) -> u8 {
        match self {
            Stage::BridgeInitialized => 1,
            Stage::BridgeComplete => 2,
        }
    }

    /// The code under which the stage is stored.
    pub fn to_code(&self) -> (code: u8)
        ensures
            code == self.code(),
    {
        match self {
            Stage::BridgeInitialized => 1,
            Stage::BridgeComplete => 2,
        }
    }
}

} // verus!
