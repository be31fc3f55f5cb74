use vstd::prelude::*;
use crate::config::EngineConfig;
use crate::errors::ErrorCode;
use crate::identity::Identity;
use crate::lemmas::lemma_distinct_members_len_bound;
use crate::lemmas::lemma_push_no_duplicates;
use crate::lemmas::lemma_window_push_no_duplicates;
use crate::state::Multisig;
use crate::state::MultisigModel;
use crate::state::Transaction;
use crate::state::TransactionAccount;
use crate::state::TransactionApproved;
use crate::state::TransactionCreated;
use crate::state::TransactionExecuted;
use crate::state::TransactionModel;
use crate::validate::identities_contain;
use crate::validate::nonces_contain;
use crate::validate::owners_error;
use crate::validate::threshold_error;
use crate::validate::validate_owners;
use crate::validate::validate_threshold;

verus! {

// ---------------------------------------------------------------------------
// The lifecycle, as mathematics: which inputs each operation refuses, and the
// state it leaves behind when it does not. The executable operations below
// are proved to follow these definitions exactly.
// ---------------------------------------------------------------------------

/// Why `initialize` rejects its inputs, or `None`: the owner set is validated
/// first, then the threshold against the owner count.
pub open spec fn initialize_error(cfg: EngineConfig, owners: Seq<Identity>, threshold: u8) -> Option<
    ErrorCode,
> {
    if owners_error(cfg, owners) is Some {
        owners_error(cfg, owners)
    } else {
        threshold_error(threshold, owners.len())
    }
}

/// Why `create_transaction` rejects its inputs, or `None`: the proposer must
/// be an owner, the nonce must not stand in the replay window, and the
/// account list and payload must respect the configured bounds, in that order.
pub open spec fn create_error(
    cfg: EngineConfig,
    registry: MultisigModel,
    proposer: Identity,
    nonce: u64,
    accounts: Seq<TransactionAccount>,
    data: Seq<u8>,
) -> Option<ErrorCode> {
    if !registry.owners.contains(proposer) {
        Some(ErrorCode::NotAnOwner)
    } else if registry.used_nonces.contains(nonce) {
        Some(ErrorCode::NonceAlreadyUsed)
    } else if accounts.len() > cfg.max_instruction_accounts {
        Some(ErrorCode::TooManyAccounts)
    } else if data.len() > cfg.max_instruction_data_size {
        Some(ErrorCode::InstructionDataTooLarge)
    } else {
        None
    }
}

/// Why `approve_transaction` rejects an approver, or `None`: the approver
/// must be an owner, the transaction not yet executed, and the approver not
/// yet among its approvals, in that order.
pub open spec fn approve_error(
    registry: MultisigModel,
    transaction: TransactionModel,
    approver: Identity,
) -> Option<ErrorCode> {
    if !registry.owners.contains(approver) {
        Some(ErrorCode::NotOwner)
    } else if transaction.did_execute {
        Some(ErrorCode::AlreadyExecuted)
    } else if transaction.approvals.contains(approver) {
        Some(ErrorCode::AlreadyApproved)
    } else {
        None
    }
}

/// Why `execute_transaction` refuses to dispatch, or `None`: a transaction
/// executes at most once, and only at quorum.
pub open spec fn execute_error(registry: MultisigModel, transaction: TransactionModel) -> Option<
    ErrorCode,
> {
    if transaction.did_execute {
        Some(ErrorCode::AlreadyExecuted)
    } else if transaction.approvals.len() < registry.threshold {
        Some(ErrorCode::NotEnoughApprovals)
    } else {
        None
    }
}

/// The replay window after consuming `nonce`: append it, evicting the oldest
/// entry first when the window is at capacity.
pub open spec fn window_push(window: Seq<u64>, nonce: u64, capacity: nat) -> Seq<u64> {
    if window.len() >= capacity {
        window.remove(0).push(nonce)
    } else {
        window.push(nonce)
    }
}

/// The registry entry after a transaction was created under it with `nonce`:
/// only the replay window moves.
pub open spec fn registry_after_create(
    cfg: EngineConfig,
    registry: MultisigModel,
    nonce: u64,
) -> MultisigModel {
    MultisigModel {
        used_nonces: window_push(registry.used_nonces, nonce, cfg.max_stored_nonces as nat),
        ..registry
    }
}

/// The transaction that `create_transaction` brings into being: not yet
/// executed, approved by nobody — or by the proposer alone, where the
/// configuration counts creation as the first approval.
pub open spec fn created_transaction(
    cfg: EngineConfig,
    registry: MultisigModel,
    proposer: Identity,
    nonce: u64,
    program_id: Identity,
    accounts: Seq<TransactionAccount>,
    data: Seq<u8>,
) -> TransactionModel {
    TransactionModel {
        multisig_id: registry.multisig_id,
        proposer,
        approvals: if cfg.proposer_auto_approves {
            seq![proposer]
        } else {
            Seq::empty()
        },
        did_execute: false,
        nonce,
        program_id,
        accounts,
        data,
    }
}

/// The transaction after one more approval.
pub open spec fn approve_step(transaction: TransactionModel, approver: Identity) -> TransactionModel {
    TransactionModel { approvals: transaction.approvals.push(approver), ..transaction }
}

/// The transaction after it was marked executed, payload still in place.
pub open spec fn execute_step(transaction: TransactionModel) -> TransactionModel {
    TransactionModel { did_execute: true, ..transaction }
}

/// The transaction after a successful dispatch: payload and account list are
/// purged, so re-execution is structurally impossible and storage is freed.
pub open spec fn cleared_transaction(transaction: TransactionModel) -> TransactionModel {
    TransactionModel {
        accounts: Seq::empty(),
        data: Seq::empty(),
        ..transaction
    }
}

// ---------------------------------------------------------------------------
// The operations.
// ---------------------------------------------------------------------------

/// Creates a registry entry: `owners` jointly control it, any `threshold` of
/// them authorize execution. Accepts exactly the inputs with a non-empty,
/// duplicate-free owner set within the configured bound and a threshold
/// between one and the owner count; the entry starts with an empty replay
/// window.
pub fn initialize(
    cfg: &EngineConfig,
    multisig_id: u64,
    owners: Vec<Identity>,
    threshold: u8,
    creator: Identity,
) -> (r: Result<Multisig, ErrorCode>)
    requires
        cfg.wf(),
    ensures
        match r {
            Ok(ms) => {
                &&& initialize_error(*cfg, owners@, threshold) is None
                &&& ms@ == (MultisigModel {
                    owners: owners@,
                    threshold,
                    creator,
                    multisig_id,
                    used_nonces: Seq::empty(),
                })
                &&& ms@.wf()
            },
            Err(e) => initialize_error(*cfg, owners@, threshold) == Some(e),
        },
{
    match validate_owners(cfg, &owners) {
        Err(e) => {
            return Err(e);
        },
        Ok(()) => {},
    }
    match validate_threshold(threshold, owners.len()) {
        Err(e) => {
            return Err(e);
        },
        Ok(()) => {},
    }
    let ms = Multisig { owners, threshold, creator, multisig_id, used_nonces: Vec::new() };
    assert(ms@ =~= (MultisigModel {
        owners: ms.owners@,
        threshold,
        creator,
        multisig_id,
        used_nonces: Seq::empty(),
    }));
    Ok(ms)
}

/// The read-only half of proposal creation: tests every precondition of
/// `create_transaction` and mutates nothing. A host that must consult an
/// external nonce-advance collaborator runs this first, then the
/// collaborator, and commits with `create_transaction` only if both agree.
pub fn check_create_transaction(
    cfg: &EngineConfig,
    multisig: &Multisig,
    proposer: &Identity,
    nonce: u64,
    accounts: &Vec<TransactionAccount>,
    data: &Vec<u8>,
) -> (r: Result<(), ErrorCode>)
    ensures
        match r {
            Ok(()) => create_error(*cfg, multisig@, *proposer, nonce, accounts@, data@) is None,
            Err(e) => create_error(*cfg, multisig@, *proposer, nonce, accounts@, data@) == Some(e),
        },
{
    if !identities_contain(&multisig.owners, proposer) {
        return Err(ErrorCode::NotAnOwner);
    }
    if nonces_contain(&multisig.used_nonces, nonce) {
        return Err(ErrorCode::NonceAlreadyUsed);
    }
    if accounts.len() > cfg.max_instruction_accounts {
        return Err(ErrorCode::TooManyAccounts);
    }
    if data.len() > cfg.max_instruction_data_size {
        return Err(ErrorCode::InstructionDataTooLarge);
    }
    Ok(())
}

/// Creates a transaction under a registry entry, or refuses with the first
/// applicable error and leaves the entry untouched. On success the supplied
/// nonce joins the replay window — the oldest entry leaving first when the
/// window is full — and the returned audit record describes the creation.
pub fn create_transaction(
    cfg: &EngineConfig,
    multisig: &mut Multisig,
    proposer: Identity,
    nonce: u64,
    program_id: Identity,
    accounts: Vec<TransactionAccount>,
    data: Vec<u8>,
) -> (r: Result<(Transaction, TransactionCreated), ErrorCode>)
    requires
        cfg.wf(),
        old(multisig)@.wf(),
    ensures
        match r {
            Ok(p) => {
                &&& create_error(*cfg, old(multisig)@, proposer, nonce, accounts@, data@) is None
                &&& p.0@ == created_transaction(
                    *cfg,
                    old(multisig)@,
                    proposer,
                    nonce,
                    program_id,
                    accounts@,
                    data@,
                )
                &&& final(multisig)@ == registry_after_create(*cfg, old(multisig)@, nonce)
                &&& final(multisig)@.wf()
                &&& p.0@.wf(final(multisig)@)
                &&& p.1 == (TransactionCreated {
                    multisig_id: old(multisig)@.multisig_id,
                    proposer,
                    nonce,
                })
            },
            Err(e) => {
                &&& create_error(*cfg, old(multisig)@, proposer, nonce, accounts@, data@) == Some(e)
                &&& final(multisig)@ == old(multisig)@
            },
        },
{
    match check_create_transaction(cfg, multisig, &proposer, nonce, &accounts, &data) {
        Err(e) => {
            return Err(e);
        },
        Ok(()) => {},
    }
    proof {
        lemma_window_push_no_duplicates(
            multisig@.used_nonces,
            nonce,
            cfg.max_stored_nonces as nat,
        );
    }
    if multisig.used_nonces.len() >= cfg.max_stored_nonces {
        multisig.used_nonces.remove(0);
    }
    multisig.used_nonces.push(nonce);
    let mut approvals: Vec<Identity> = Vec::new();
    if cfg.proposer_auto_approves {
        approvals.push(proposer);
    }
    let transaction = Transaction {
        multisig_id: multisig.multisig_id,
        proposer,
        approvals,
        did_execute: false,
        nonce,
        program_id,
        accounts,
        data,
    };
    let created = TransactionCreated { multisig_id: multisig.multisig_id, proposer, nonce };
    assert(transaction@ =~= created_transaction(
        *cfg,
        old(multisig)@,
        proposer,
        nonce,
        program_id,
        transaction.accounts@,
        transaction.data@,
    ));
    assert(final(multisig)@ =~= registry_after_create(*cfg, old(multisig)@, nonce));
    Ok((transaction, created))
}

/// Records one owner's approval of a transaction, or refuses with the first
/// applicable error and changes nothing. Approvals only grow, each owner
/// counts once, and the returned audit record carries the running count
/// beside the threshold.
pub fn approve_transaction(
    multisig: &Multisig,
    transaction: &mut Transaction,
    approver: Identity,
) -> (r: Result<TransactionApproved, ErrorCode>)
    requires
        multisig@.wf(),
        old(transaction)@.wf(multisig@),
    ensures
        match r {
            Ok(ev) => {
                &&& approve_error(multisig@, old(transaction)@, approver) is None
                &&& final(transaction)@ == approve_step(old(transaction)@, approver)
                &&& final(transaction)@.wf(multisig@)
                &&& ev == (TransactionApproved {
                    multisig_id: old(transaction)@.multisig_id,
                    nonce: old(transaction)@.nonce,
                    approver,
                    approvals_count: (old(transaction)@.approvals.len() + 1) as u8,
                    threshold: multisig@.threshold,
                })
            },
            Err(e) => {
                &&& approve_error(multisig@, old(transaction)@, approver) == Some(e)
                &&& final(transaction)@ == old(transaction)@
            },
        },
{
    if !identities_contain(&multisig.owners, &approver) {
        return Err(ErrorCode::NotOwner);
    }
    if transaction.did_execute {
        return Err(ErrorCode::AlreadyExecuted);
    }
    if identities_contain(&transaction.approvals, &approver) {
        return Err(ErrorCode::AlreadyApproved);
    }
    proof {
        lemma_push_no_duplicates(transaction@.approvals, approver);
    }
    transaction.approvals.push(approver);
    proof {
        assert(forall|i: int|
            0 <= i < transaction@.approvals.len() ==> multisig@.owners.contains(
                #[trigger] transaction@.approvals[i],
            ));
        lemma_distinct_members_len_bound(transaction@.approvals, multisig@.owners);
        assert(transaction@ =~= approve_step(old(transaction)@, approver));
    }
    let count = transaction.approvals.len();
    Ok(
        TransactionApproved {
            multisig_id: transaction.multisig_id,
            nonce: transaction.nonce,
            approver,
            approvals_count: count as u8,
            threshold: multisig.threshold,
        },
    )
}

/// What the engine hands to the execution dispatcher once a transaction has
/// reached quorum: the opaque instructions as proposed, and the authorization
/// seed derived from the owning registry entry's identifier, with which the
/// dispatcher can verify the hand-off's origin.
#[derive(Clone, Debug)]
pub struct DispatchRequest {
    pub program_id: Identity,
    pub accounts: Vec<TransactionAccount>,
    pub data: Vec<u8>,
    pub authorization: Vec<u8>,
}

/// Authorizes execution of a transaction, or refuses and changes nothing. On
/// success the transaction is marked executed *before* the dispatch request
/// is handed out, so a repeated call is rejected even while the dispatch is
/// still in flight; the request exposes exactly the payload and account list
/// the proposer supplied. The mark is never rolled back: a dispatch that
/// fails afterwards leaves the transaction permanently executed.
pub fn execute_transaction(
    multisig: &Multisig,
    transaction: &mut Transaction,
) -> (r: Result<DispatchRequest, ErrorCode>)
    requires
        multisig@.wf(),
        old(transaction)@.wf(multisig@),
    ensures
        match r {
            Ok(req) => {
                &&& execute_error(multisig@, old(transaction)@) is None
                &&& final(transaction)@ == execute_step(old(transaction)@)
                &&& final(transaction)@.wf(multisig@)
                &&& req.program_id == old(transaction)@.program_id
                &&& req.accounts@ == old(transaction)@.accounts
                &&& req.data@ == old(transaction)@.data
                &&& req.authorization@ == authorization_seed_spec(multisig@.multisig_id)
            },
            Err(e) => {
                &&& execute_error(multisig@, old(transaction)@) == Some(e)
                &&& final(transaction)@ == old(transaction)@
            },
        },
{
    if transaction.did_execute {
        return Err(ErrorCode::AlreadyExecuted);
    }
    if transaction.approvals.len() < multisig.threshold as usize {
        return Err(ErrorCode::NotEnoughApprovals);
    }
    transaction.did_execute = true;
    let req = DispatchRequest {
        program_id: transaction.program_id,
        accounts: copied_vec(&transaction.accounts),
        data: copied_vec(&transaction.data),
        authorization: authorization_seed(multisig.multisig_id),
    };
    assert(transaction@ =~= execute_step(old(transaction)@));
    Ok(req)
}

/// Closes a successful dispatch: purges the transaction's payload and account
/// list and reports who triggered the execution. Runs only after
/// `execute_transaction` authorized the hand-off and the dispatcher confirmed
/// it; a failed dispatch leaves the transaction as `execute_transaction` left
/// it, executed and unexecutable again.
pub fn finish_dispatch(transaction: &mut Transaction, executor: Identity) -> (ev:
    TransactionExecuted)
    requires
        old(transaction)@.did_execute,
    ensures
        final(transaction)@ == cleared_transaction(old(transaction)@),
        forall|registry: MultisigModel| #[trigger]
            old(transaction)@.wf(registry) ==> final(transaction)@.wf(registry),
        ev == (TransactionExecuted {
            multisig_id: old(transaction)@.multisig_id,
            nonce: old(transaction)@.nonce,
            executor,
        }),
{
    transaction.data.clear();
    transaction.accounts.clear();
    assert(transaction@ =~= cleared_transaction(old(transaction)@));
    TransactionExecuted { multisig_id: transaction.multisig_id, nonce: transaction.nonce, executor }
}

/// Is the registry entry the authority of a nonce account with this raw
/// content? The authority identity sits in bytes 40 to 71 of the account
/// data; shorter data carries no authority to check.
pub open spec fn nonce_authority_ok(data: Seq<u8>, expected: Seq<u8>) -> bool {
    data.len() < 72 || data.subrange(40, 72) == expected
}

/// Validates that a nonce account names the registry entry as its authority
/// before the entry's nonce-advance collaborator is invoked. `expected`
/// is the entry's 32-byte address.
pub fn check_nonce_authority(
    nonce_account_data: &Vec<u8>,
    expected_authority: &Vec<u8>,
) -> (r: Result<(), ErrorCode>)
    requires
        expected_authority@.len() == 32,
    ensures
        r is Ok <==> nonce_authority_ok(nonce_account_data@, expected_authority@),
        r is Err ==> r == Err::<(), ErrorCode>(ErrorCode::InvalidNonceAuthority),
{
    if nonce_account_data.len() < 72 {
        return Ok(());
    }
    let mut k: usize = 0;
    while k < 32
        invariant
            0 <= k <= 32,
            nonce_account_data@.len() >= 72,
            expected_authority@.len() == 32,
            forall|i: int| 0 <= i < k ==> nonce_account_data@[40 + i] == expected_authority@[i],
        decreases 32 - k,
    {
        if nonce_account_data[40 + k] != expected_authority[k] {
            assert(nonce_account_data@.subrange(40, 72)[k as int] != expected_authority@[k as int]);
            return Err(ErrorCode::InvalidNonceAuthority);
        }
        k = k + 1;
    }
    assert(nonce_account_data@.subrange(40, 72) =~= expected_authority@);
    Ok(())
}

/// 256 to the power `k`.
pub open spec fn pow256(k: nat) -> nat
    decreases k,
{
    if k == 0 {
        1nat
    } else {
        256 * pow256((k - 1) as nat)
    }
}

/// Byte `k` of the little-endian encoding of `v`.
pub open spec fn le_byte(v: u64, k: nat) -> u8 {
    (((v as nat) / pow256(k)) % 256) as u8
}

/// The authorization seed of a registry entry: the ASCII tag `multisig`
/// followed by the entry identifier's eight little-endian bytes.
pub open spec fn authorization_seed_spec(multisig_id: u64) -> Seq<u8> {
    seq![0x6du8, 0x75u8, 0x6cu8, 0x74u8, 0x69u8, 0x73u8, 0x69u8, 0x67u8] + Seq::new(
        8,
        |i: int| le_byte(multisig_id, i as nat),
    )
}

proof fn lemma_pow256_pos(k: nat)
    ensures
        pow256(k) >= 1,
    decreases k,
{
    if k > 0 {
        lemma_pow256_pos((k - 1) as nat);
    }
}

/// Derives the authorization seed handed to the dispatcher beside an
/// authorized transaction.
pub fn authorization_seed(multisig_id: u64) -> (r: Vec<u8>)
    ensures
        r@ == authorization_seed_spec(multisig_id),
{
    let mut r: Vec<u8> = Vec::new();
    r.push(0x6d);
    r.push(0x75);
    r.push(0x6c);
    r.push(0x74);
    r.push(0x69);
    r.push(0x73);
    r.push(0x69);
    r.push(0x67);
    let mut q: u64 = multisig_id;
    let mut k: usize = 0;
    proof {
        assert(pow256(0) == 1);
    }
    while k < 8
        invariant
            0 <= k <= 8,
            r@.len() == 8 + k,
            q as nat == (multisig_id as nat) / pow256(k as nat),
            forall|i: int| 0 <= i < 8 ==> r@[i] == authorization_seed_spec(multisig_id)[i],
            forall|i: int| 0 <= i < k ==> r@[8 + i] == le_byte(multisig_id, #[trigger] (i as nat)),
        decreases 8 - k,
    {
        proof {
            lemma_pow256_pos(k as nat);
            vstd::arithmetic::div_mod::lemma_div_denominator(
                multisig_id as int,
                pow256(k as nat) as int,
                256,
            );
            assert(pow256((k + 1) as nat) == pow256(k as nat) * 256) by {
                assert(pow256((k + 1) as nat) == 256 * pow256(k as nat));
            }
        }
        r.push((q % 256) as u8);
        q = q / 256;
        k = k + 1;
    }
    assert(r@ =~= authorization_seed_spec(multisig_id));
    r
}

/// An element-wise copy of `v`, so the dispatch request can expose the
/// payload while the stored transaction keeps its own.
fn copied_vec<T: Copy>(v: &Vec<T>) -> (r: Vec<T>)
    ensures
        r@ == v@,
{
    let mut r: Vec<T> = Vec::new();
    let n = v.len();
    let mut i: usize = 0;
    while i < n
        invariant
            0 <= i <= n,
            n == v@.len(),
            r@ =~= v@.subrange(0, i as int),
        decreases n - i,
    {
        r.push(v[i]);
        i = i + 1;
    }
    assert(r@ =~= v@);
    r
}

} // verus!
