use vstd::prelude::*;
use crate::identity::Identity;

verus! {

/// Mathematical model of a registry entry: what `Multisig` looks like in
/// contracts and proofs.
#[verifier::ext_equal]
pub struct MultisigModel {
    pub owners: Seq<Identity>,
    pub threshold: u8,
    pub creator: Identity,
    pub multisig_id: u64,
    pub used_nonces: Seq<u64>,
}

impl MultisigModel {
    /// The registry invariant: owners are distinct and non-empty, the
    /// threshold lies between one and the owner count, and the replay window
    /// never holds the same nonce twice. The owner count stays below 256 so
    /// that 8-bit thresholds and approval counts cover every owner set.
    pub open spec fn wf(self) -> bool {
        &&& self.owners.no_duplicates()
        &&& 1 <= self.owners.len() <= 255
        &&& 1 <= self.threshold <= self.owners.len()
        &&& self.used_nonces.no_duplicates()
    }
}

/// The durable configuration of one jointly controlled account: its owner
/// set, the approval threshold, who created it, its identifier, and the
/// sliding window of recently consumed nonces.
#[derive(Clone, Debug)]
pub struct Multisig {
    pub owners: Vec<Identity>,
    pub threshold: u8,
    pub creator: Identity,
    pub multisig_id: u64,
    pub used_nonces: Vec<u64>,
}

impl View for Multisig {
    type V = MultisigModel;

    open spec fn view(&self) -> MultisigModel {
        MultisigModel {
            owners: self.owners@,
            threshold: self.threshold,
            creator: self.creator,
            multisig_id: self.multisig_id,
            used_nonces: self.used_nonces@,
        }
    }
}

/// One account a transaction touches when it executes: its identity, and
/// whether the downstream invocation treats it as a signer or as writable.
#[derive(Clone, Copy, PartialEq, Eq, Structural, Debug)]
pub struct TransactionAccount {
    pub pubkey: Identity,
    pub is_signer: bool,
    pub is_writable: bool,
}

/// Mathematical model of a pending or executed transaction.
#[verifier::ext_equal]
pub struct TransactionModel {
    pub multisig_id: u64,
    pub proposer: Identity,
    pub approvals: Seq<Identity>,
    pub did_execute: bool,
    pub nonce: u64,
    pub program_id: Identity,
    pub accounts: Seq<TransactionAccount>,
    pub data: Seq<u8>,
}

impl TransactionModel {
    /// The transaction invariant, relative to its owning registry entry: it
    /// is bound to that entry, its approvals are distinct owners of the
    /// entry, and once executed it carries at least `threshold` approvals.
    pub open spec fn wf(self, registry: MultisigModel) -> bool {
        &&& self.multisig_id == registry.multisig_id
        &&& self.approvals.no_duplicates()
        &&& forall|i: int|
            0 <= i < self.approvals.len() ==> registry.owners.contains(
                #[trigger] self.approvals[i],
            )
        &&& self.did_execute ==> self.approvals.len() >= registry.threshold
    }
}

/// One proposed action: which registry entry it belongs to, who proposed it,
/// which owners approved it so far, whether it already executed, its replay
/// nonce, and the opaque execution instructions.
#[derive(Clone, Debug)]
pub struct Transaction {
    pub multisig_id: u64,
    pub proposer: Identity,
    pub approvals: Vec<Identity>,
    pub did_execute: bool,
    pub nonce: u64,
    pub program_id: Identity,
    pub accounts: Vec<TransactionAccount>,
    pub data: Vec<u8>,
}

impl View for Transaction {
    type V = TransactionModel;

    open spec fn view(&self) -> TransactionModel {
        TransactionModel {
            multisig_id: self.multisig_id,
            proposer: self.proposer,
            approvals: self.approvals@,
            did_execute: self.did_execute,
            nonce: self.nonce,
            program_id: self.program_id,
            accounts: self.accounts@,
            data: self.data@,
        }
    }
}

/// Audit record: a transaction was created under the given registry entry.
#[derive(Clone, Copy, PartialEq, Eq, Structural, Debug)]
pub struct TransactionCreated {
    pub multisig_id: u64,
    pub proposer: Identity,
    pub nonce: u64,
}

/// Audit record: one more owner approved the transaction. Carries the running
/// approval count beside the threshold so observers can track quorum progress.
#[derive(Clone, Copy, PartialEq, Eq, Structural, Debug)]
pub struct TransactionApproved {
    pub multisig_id: u64,
    pub nonce: u64,
    pub approver: Identity,
    pub approvals_count: u8,
    pub threshold: u8,
}

/// Audit record: the transaction was handed to the dispatcher, by whom.
#[derive(Clone, Copy, PartialEq, Eq, Structural, Debug)]
pub struct TransactionExecuted {
    pub multisig_id: u64,
    pub nonce: u64,
    pub executor: Identity,
}

} // verus!
