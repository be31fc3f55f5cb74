//! A threshold-authorization engine: a fixed set of owner identities jointly
//! controls actions, requiring at least `threshold` of them to approve before
//! an action may execute.
//!
//! The library holds the verified core: registry creation, proposal creation
//! with a sliding replay window of used nonces, distinct-owner approval
//! collection, and the one-shot execution gate. Durable storage, signature
//! verification and the actual dispatch of an approved payload are left to the
//! surrounding host.

pub mod config;
pub mod engine;
pub mod errors;
pub mod identity;
pub mod lemmas;
pub mod state;
pub mod validate;

pub use config::EngineConfig;
pub use engine::DispatchRequest;
pub use errors::ErrorCode;
pub use identity::Identity;
pub use state::Multisig;
pub use state::Transaction;
pub use state::TransactionAccount;
pub use state::TransactionApproved;
pub use state::TransactionCreated;
pub use state::TransactionExecuted;
