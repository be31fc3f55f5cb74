use vstd::prelude::*;
use crate::config::EngineConfig;
use crate::engine::approve_error;
use crate::engine::approve_step;
use crate::engine::cleared_transaction;
use crate::engine::created_transaction;
use crate::engine::execute_error;
use crate::engine::execute_step;
use crate::engine::window_push;
use crate::errors::ErrorCode;
use crate::identity::Identity;
use crate::state::MultisigModel;
use crate::state::TransactionAccount;
use crate::state::TransactionModel;

verus! {

/// A duplicate-free sequence whose members all occur in `t` cannot be longer
/// than `t`: the approval list of a well-formed transaction can never outgrow
/// the owner set.
pub proof fn lemma_distinct_members_len_bound<A>(s: Seq<A>, t: Seq<A>)
    requires
        s.no_duplicates(),
        forall|i: int| 0 <= i < s.len() ==> t.contains(#[trigger] s[i]),
    ensures
        s.len() <= t.len(),
{
    broadcast use vstd::set::group_set_axioms;
    broadcast use vstd::seq_lib::seq_to_set_is_finite;

    s.unique_seq_to_set();
    t.lemma_cardinality_of_set();
    assert(s.to_set().subset_of(t.to_set())) by {
        assert forall|a: A| s.to_set().contains(a) implies t.to_set().contains(a) by {
            assert(s.contains(a));
            let i = choose|i: int| 0 <= i < s.len() && s[i] == a;
            assert(t.contains(s[i]));
        }
    }
    vstd::set_lib::lemma_len_subset(s.to_set(), t.to_set());
}

/// Appending a fresh element keeps a sequence duplicate-free.
pub proof fn lemma_push_no_duplicates<A>(s: Seq<A>, x: A)
    requires
        s.no_duplicates(),
        !s.contains(x),
    ensures
        s.push(x).no_duplicates(),
{
    let r = s.push(x);
    assert forall|i: int, j: int|
        0 <= i < r.len() && 0 <= j < r.len() && i != j implies r[i] != r[j] by {
        if i < s.len() && j < s.len() {
            assert(s[i] != s[j]);
        } else if i == s.len() {
            assert(r[j] == s[j]);
            assert(!s.contains(x));
            assert(s[j] != x);
        } else {
            assert(r[i] == s[i]);
            assert(s[i] != x);
        }
    }
}

/// Consuming a nonce that does not stand in a duplicate-free replay window
/// leaves the window duplicate-free, whether or not an old entry is evicted.
pub proof fn lemma_window_push_no_duplicates(window: Seq<u64>, nonce: u64, capacity: nat)
    requires
        capacity >= 1,
        window.no_duplicates(),
        !window.contains(nonce),
    ensures
        window_push(window, nonce, capacity).no_duplicates(),
{
    if window.len() >= capacity {
        let shifted = window.remove(0);
        assert(shifted =~= window.subrange(1, window.len() as int));
        assert(shifted.no_duplicates()) by {
            assert(forall|i: int| 0 <= i < shifted.len() ==> shifted[i] == window[i + 1]);
        }
        assert(!shifted.contains(nonce)) by {
            if shifted.contains(nonce) {
                let i = choose|i: int| 0 <= i < shifted.len() && shifted[i] == nonce;
                assert(window[i + 1] == nonce);
                assert(window.contains(nonce));
            }
        }
        lemma_push_no_duplicates(shifted, nonce);
    } else {
        lemma_push_no_duplicates(window, nonce);
    }
}

/// The transaction after the whole sequence `approvers` approved, first one
/// first.
pub open spec fn approve_all(
    transaction: TransactionModel,
    approvers: Seq<Identity>,
) -> TransactionModel
    decreases approvers.len(),
{
    if approvers.len() == 0 {
        transaction
    } else {
        approve_all(approve_step(transaction, approvers[0]), approvers.drop_first())
    }
}

/// Would every approval in `approvers`, taken in order, be admitted?
pub open spec fn approvals_admitted(
    registry: MultisigModel,
    transaction: TransactionModel,
    approvers: Seq<Identity>,
) -> bool
    decreases approvers.len(),
{
    if approvers.len() == 0 {
        true
    } else {
        approve_error(registry, transaction, approvers[0]) is None && approvals_admitted(
            registry,
            approve_step(transaction, approvers[0]),
            approvers.drop_first(),
        )
    }
}

/// An approval is granted once per owner: right after an owner's approval was
/// admitted, the same owner approving again is rejected as `AlreadyApproved`.
pub proof fn lemma_second_approval_rejected(
    registry: MultisigModel,
    transaction: TransactionModel,
    approver: Identity,
)
    requires
        approve_error(registry, transaction, approver) is None,
    ensures
        approve_error(registry, approve_step(transaction, approver), approver) == Some(
            ErrorCode::AlreadyApproved,
        ),
{
    let stepped = approve_step(transaction, approver);
    assert(stepped.approvals[transaction.approvals.len() as int] == approver);
    assert(stepped.approvals.contains(approver));
}

/// Distinct owners who have not yet approved an unexecuted transaction are
/// all admitted, in any order, and each adds exactly one approval: after `n`
/// such approvals the approval count has grown by `n`.
pub proof fn lemma_distinct_owner_approvals_admitted(
    registry: MultisigModel,
    transaction: TransactionModel,
    approvers: Seq<Identity>,
)
    requires
        approvers.no_duplicates(),
        forall|i: int|
            0 <= i < approvers.len() ==> registry.owners.contains(#[trigger] approvers[i]),
        forall|i: int|
            0 <= i < approvers.len() ==> !transaction.approvals.contains(#[trigger] approvers[i]),
        !transaction.did_execute,
    ensures
        approvals_admitted(registry, transaction, approvers),
        approve_all(transaction, approvers).approvals.len() == transaction.approvals.len()
            + approvers.len(),
    decreases approvers.len(),
{
    if approvers.len() > 0 {
        let first = approvers[0];
        let stepped = approve_step(transaction, first);
        let rest = approvers.drop_first();
        assert(registry.owners.contains(first));
        assert(!transaction.approvals.contains(first));
        assert(rest.no_duplicates()) by {
            assert(forall|i: int, j: int|
                0 <= i < rest.len() && 0 <= j < rest.len() && i != j ==> rest[i] == approvers[i + 1]
                    && rest[j] == approvers[j + 1] && approvers[i + 1] != approvers[j + 1]);
        }
        assert forall|i: int| 0 <= i < rest.len() implies registry.owners.contains(
            #[trigger] rest[i],
        ) by {
            assert(rest[i] == approvers[i + 1]);
        }
        assert forall|i: int| 0 <= i < rest.len() implies !stepped.approvals.contains(
            #[trigger] rest[i],
        ) by {
            assert(rest[i] == approvers[i + 1]);
            assert(!transaction.approvals.contains(approvers[i + 1]));
            assert(approvers[i + 1] != first);
            if stepped.approvals.contains(rest[i]) {
                let j = choose|j: int|
                    0 <= j < stepped.approvals.len() && stepped.approvals[j] == rest[i];
                if j < transaction.approvals.len() {
                    assert(transaction.approvals.contains(rest[i]));
                } else {
                    assert(stepped.approvals[j] == first);
                }
            }
        }
        lemma_distinct_owner_approvals_admitted(registry, stepped, rest);
    }
}

/// Approvals touch nothing but the approval list: proposer, binding, nonce,
/// execution flag and the opaque instructions all stay as they were.
pub proof fn lemma_approvals_preserve_instructions(
    transaction: TransactionModel,
    approvers: Seq<Identity>,
)
    ensures
        approve_all(transaction, approvers).multisig_id == transaction.multisig_id,
        approve_all(transaction, approvers).proposer == transaction.proposer,
        approve_all(transaction, approvers).did_execute == transaction.did_execute,
        approve_all(transaction, approvers).nonce == transaction.nonce,
        approve_all(transaction, approvers).program_id == transaction.program_id,
        approve_all(transaction, approvers).accounts == transaction.accounts,
        approve_all(transaction, approvers).data == transaction.data,
    decreases approvers.len(),
{
    if approvers.len() > 0 {
        lemma_approvals_preserve_instructions(
            approve_step(transaction, approvers[0]),
            approvers.drop_first(),
        );
    }
}

/// An executed transaction is terminal: executing again is rejected as
/// `AlreadyExecuted`, and so is any further approval by an owner — however
/// many approvals the transaction carries.
pub proof fn lemma_executed_is_terminal(
    registry: MultisigModel,
    transaction: TransactionModel,
    approver: Identity,
)
    requires
        transaction.did_execute,
    ensures
        execute_error(registry, transaction) == Some(ErrorCode::AlreadyExecuted),
        registry.owners.contains(approver) ==> approve_error(registry, transaction, approver)
            == Some(ErrorCode::AlreadyExecuted),
{
}

/// The payload round-trips: however many approvals follow its creation, a
/// transaction created with a payload and an account list exposes exactly
/// those at execution time, and both are empty once the dispatch is closed.
pub proof fn lemma_payload_round_trip(
    cfg: EngineConfig,
    registry: MultisigModel,
    proposer: Identity,
    nonce: u64,
    program_id: Identity,
    accounts: Seq<TransactionAccount>,
    data: Seq<u8>,
    approvers: Seq<Identity>,
)
    ensures
        ({
            let created = created_transaction(
                cfg,
                registry,
                proposer,
                nonce,
                program_id,
                accounts,
                data,
            );
            let approved = approve_all(created, approvers);
            &&& approved.program_id == program_id
            &&& approved.accounts == accounts
            &&& approved.data == data
            &&& execute_step(approved).accounts == accounts
            &&& execute_step(approved).data == data
            &&& cleared_transaction(execute_step(approved)).accounts == Seq::<
                TransactionAccount,
            >::empty()
            &&& cleared_transaction(execute_step(approved)).data == Seq::<u8>::empty()
        }),
{
    let created = created_transaction(cfg, registry, proposer, nonce, program_id, accounts, data);
    lemma_approvals_preserve_instructions(created, approvers);
}

} // verus!
