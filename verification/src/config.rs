use vstd::prelude::*;

verus! {

/// Capacity policy and behaviour switches, injected at engine construction
/// rather than baked in, so a deployment can pick its own bounds.
#[derive(Clone, Copy, PartialEq, Eq, Structural, Debug)]
pub struct EngineConfig {
    /// Largest admissible owner set of a registry entry.
    pub max_owners: usize,
    /// Capacity of the sliding replay window of used nonces.
    pub max_stored_nonces: usize,
    /// Largest admissible account list of a transaction.
    pub max_instruction_accounts: usize,
    /// Largest admissible payload, in bytes, of a transaction.
    pub max_instruction_data_size: usize,
    /// Whether creating a transaction counts as the proposer's first approval.
    pub proposer_auto_approves: bool,
}

impl EngineConfig {
    /// A usable configuration: at least one owner must be admissible, and no
    /// owner set may outgrow the 8-bit approval counts reported to observers;
    /// the replay window must hold at least one nonce.
    pub open spec fn wf(self) -> bool {
        &&& 1 <= self.max_owners <= 255
        &&& 1 <= self.max_stored_nonces
    }

    /// The default deployment policy: up to 10 owners, a replay window of 100
    /// nonces, up to 10 accounts and 1024 payload bytes per transaction, and
    /// no implicit self-approval by the proposer.
    pub fn standard() -> (r: EngineConfig)
        ensures
            r == (EngineConfig {
                max_owners: 10,
                max_stored_nonces: 100,
                max_instruction_accounts: 10,
                max_instruction_data_size: 1024,
                proposer_auto_approves: false,
            }),
            r.wf(),
    {
        EngineConfig {
            max_owners: 10,
            max_stored_nonces: 100,
            max_instruction_accounts: 10,
            max_instruction_data_size: 1024,
            proposer_auto_approves: false,
        }
    }
}

} // verus!
