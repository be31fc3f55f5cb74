use vstd::prelude::*;

verus! {

/// Every way an engine operation can be refused. Each operation returns either
/// a success value or exactly one of these; no state is mutated on an error.
#[derive(Clone, Copy, PartialEq, Eq, Structural, Debug)]
pub enum ErrorCode {
    /// The requested threshold is zero or exceeds the number of owners.
    InvalidThreshold,
    /// The proposed owner set names the same identity twice.
    DuplicateOwners,
    /// The proposed owner set is empty.
    NoOwners,
    /// The proposer of a transaction is not an owner of the registry entry.
    NotAnOwner,
    /// The approver of a transaction is not an owner of the registry entry.
    NotOwner,
    /// The approver already stands in the transaction's approval list.
    AlreadyApproved,
    /// The registry entry is not the authority of the supplied nonce account.
    InvalidNonceAuthority,
    /// The supplied nonce still stands in the registry's replay window.
    NonceAlreadyUsed,
    /// The transaction was already executed once.
    AlreadyExecuted,
    /// The transaction has fewer approvals than the registry's threshold.
    NotEnoughApprovals,
    /// The transaction names more accounts than the configured bound.
    TooManyAccounts,
    /// The transaction payload is larger than the configured bound.
    InstructionDataTooLarge,
    /// The identity is already an owner.
    AlreadyAnOwner,
    /// The proposed owner set is larger than the configured bound.
    TooManyOwners,
}

impl ErrorCode {
    /// A short human-readable description of the error.
    pub fn message(&self) -> (r: &'static str)
        ensures
            *self is InvalidThreshold ==> r@ == "Invalid threshold"@,
            *self is DuplicateOwners ==> r@ == "Duplicate owners"@,
            *self is NoOwners ==> r@ == "No owner provided"@,
            *self is NotAnOwner ==> r@ == "The proposer is not an owner"@,
            *self is NotOwner ==> r@ == "Not an owner"@,
            *self is AlreadyApproved ==> r@ == "Already approved"@,
            *self is InvalidNonceAuthority ==> r@ == "Proposer is not the nonce authority"@,
            *self is NonceAlreadyUsed ==> r@ == "This nonce has already been used"@,
            *self is AlreadyExecuted ==> r@ == "Transaction already executed"@,
            *self is NotEnoughApprovals ==> r@ == "Not enough approvals to execute"@,
            *self is TooManyAccounts ==> r@ == "Too many accounts in transaction"@,
            *self is InstructionDataTooLarge ==> r@ == "Instruction data too large"@,
            *self is AlreadyAnOwner ==> r@ == "Already an owner"@,
            *self is TooManyOwners ==> r@ == "Too many owners"@,
    {
        match self {
            ErrorCode::InvalidThreshold => "Invalid threshold",
            ErrorCode::DuplicateOwners => "Duplicate owners",
            ErrorCode::NoOwners => "No owner provided",
            ErrorCode::NotAnOwner => "The proposer is not an owner",
            ErrorCode::NotOwner => "Not an owner",
            ErrorCode::AlreadyApproved => "Already approved",
            ErrorCode::InvalidNonceAuthority => "Proposer is not the nonce authority",
            ErrorCode::NonceAlreadyUsed => "This nonce has already been used",
            ErrorCode::AlreadyExecuted => "Transaction already executed",
            ErrorCode::NotEnoughApprovals => "Not enough approvals to execute",
            ErrorCode::TooManyAccounts => "Too many accounts in transaction",
            ErrorCode::InstructionDataTooLarge => "Instruction data too large",
            ErrorCode::AlreadyAnOwner => "Already an owner",
            ErrorCode::TooManyOwners => "Too many owners",
        }
    }
}

} // verus!
