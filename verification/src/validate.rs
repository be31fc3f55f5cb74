use vstd::prelude::*;
use crate::config::EngineConfig;
use crate::errors::ErrorCode;
use crate::identity::Identity;
use crate::state::Multisig;

verus! {

/// Why a proposed owner set is rejected, or `None` if it is acceptable:
/// it must be non-empty, free of duplicates, and within the configured bound,
/// tested in that order.
pub open spec fn owners_error(cfg: EngineConfig, owners: Seq<Identity>) -> Option<ErrorCode> {
    if owners.len() == 0 {
        Some(ErrorCode::NoOwners)
    } else if !owners.no_duplicates() {
        Some(ErrorCode::DuplicateOwners)
    } else if owners.len() > cfg.max_owners {
        Some(ErrorCode::TooManyOwners)
    } else {
        None
    }
}

/// Why a proposed threshold is rejected against an owner count, or `None`:
/// it must be at least one and at most the owner count.
pub open spec fn threshold_error(threshold: u8, owner_count: nat) -> Option<ErrorCode> {
    if threshold == 0 || threshold > owner_count {
        Some(ErrorCode::InvalidThreshold)
    } else {
        None
    }
}

/// Does `v` hold `x`? Identities compare by their words.
pub fn identities_contain(v: &Vec<Identity>, x: &Identity) -> (r: bool)
    ensures
        r == v@.contains(*x),
{
    let n = v.len();
    let mut i: usize = 0;
    while i < n
        invariant
            0 <= i <= n,
            n == v@.len(),
            forall|k: int| 0 <= k < i ==> v@[k] != *x,
        decreases n - i,
    {
        if v[i] == *x {
            return true;
        }
        i = i + 1;
    }
    false
}

/// Does the replay window `v` hold the nonce `x`?
pub fn nonces_contain(v: &Vec<u64>, x: u64) -> (r: bool)
    ensures
        r == v@.contains(x),
{
    let n = v.len();
    let mut i: usize = 0;
    while i < n
        invariant
            0 <= i <= n,
            n == v@.len(),
            forall|k: int| 0 <= k < i ==> v@[k] != x,
        decreases n - i,
    {
        if v[i] == x {
            return true;
        }
        i = i + 1;
    }
    false
}

/// Accepts an owner set iff it is non-empty, duplicate-free and within the
/// configured bound; otherwise reports the first applicable error.
pub fn validate_owners(cfg: &EngineConfig, owners: &Vec<Identity>) -> (r: Result<(), ErrorCode>)
    ensures
        match r {
            Ok(()) => owners_error(*cfg, owners@) is None,
            Err(e) => owners_error(*cfg, owners@) == Some(e),
        },
{
    let n = owners.len();
    if n == 0 {
        return Err(ErrorCode::NoOwners);
    }
    let mut i: usize = 0;
    while i < n
        invariant
            0 <= i <= n,
            n == owners@.len(),
            forall|p: int, q: int| 0 <= p < q < n && p < i ==> owners@[p] != owners@[q],
        decreases n - i,
    {
        let mut j: usize = i + 1;
        while j < n
            invariant
                0 <= i < j <= n,
                n == owners@.len(),
                forall|q: int| i < q < j ==> owners@[i as int] != owners@[q],
            decreases n - j,
        {
            if owners[i] == owners[j] {
                assert(!owners@.no_duplicates());
                return Err(ErrorCode::DuplicateOwners);
            }
            j = j + 1;
        }
        i = i + 1;
    }
    assert(owners@.no_duplicates()) by {
        assert(forall|p: int, q: int|
            0 <= p < owners@.len() && 0 <= q < owners@.len() && p != q ==> owners@[p]
                != owners@[q]);
    }
    if n > cfg.max_owners {
        return Err(ErrorCode::TooManyOwners);
    }
    Ok(())
}

/// Accepts a threshold iff it lies between one and the owner count.
pub fn validate_threshold(threshold: u8, owner_count: usize) -> (r: Result<(), ErrorCode>)
    ensures
        match r {
            Ok(()) => threshold_error(threshold, owner_count as nat) is None,
            Err(e) => threshold_error(threshold, owner_count as nat) == Some(e),
        },
{
    if threshold == 0 || threshold as usize > owner_count {
        Err(ErrorCode::InvalidThreshold)
    } else {
        Ok(())
    }
}

/// Is `identity` an owner of the registry entry?
pub fn is_owner(multisig: &Multisig, identity: &Identity) -> (r: bool)
    ensures
        r == multisig@.owners.contains(*identity),
{
    identities_contain(&multisig.owners, identity)
}

} // verus!
