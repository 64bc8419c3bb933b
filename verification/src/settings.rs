//! The parts of the indexer's settings that do not depend on where the
//! settings are read from.

use vstd::prelude::*;

verus! {

/// Mode to start the indexer in. Each mode uses different files from the
/// verifier.
#[derive(Debug, Clone, Copy, PartialEq, Eq, Structural)]
pub enum Mode {
    Iot,
    Mobile,
}

impl Mode {
    /// The name of the mode, in lower case.
    pub open spec fn spec_to_string(self) -> Seq<char> {
        match self {
            Mode::Iot => "iot"@,
            Mode::Mobile => "mobile"@,
        }
    }

    /// The name of the mode, in lower case.
    pub fn to_string(&self) -> (r: String)
        ensures
            r@ == self.spec_to_string(),
    {
        match self {
            Mode::Iot => "iot".to_owned(),
            Mode::Mobile => "mobile".to_owned(),
        }
    }
}

/// The log filter that is used where the settings name none.
pub fn default_log() -> (r: String)
    ensures
        r@ == "reward_index=debug,poc_store=info"@,
{
    "reward_index=debug,poc_store=info".to_owned()
}

} // verus!
