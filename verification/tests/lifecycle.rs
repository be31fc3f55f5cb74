use multisig::config::EngineConfig;
use multisig::engine::approve_transaction;
use multisig::engine::check_nonce_authority;
use multisig::engine::create_transaction;
use multisig::engine::execute_transaction;
use multisig::engine::finish_dispatch;
use multisig::engine::initialize;
use multisig::errors::ErrorCode;
use multisig::identity::Identity;
use multisig::state::Multisig;
use multisig::state::TransactionAccount;

fn id(n: u64) -> Identity {
    Identity::new(n, 0, 0, 0)
}

fn owners(ns: &[u64]) -> Vec<Identity> {
    ns.iter().map(|n| id(*n)).collect()
}

fn three_owner_registry(cfg: &EngineConfig) -> Multisig {
    initialize(cfg, 7, owners(&[1, 2, 3]), 2, id(1)).unwrap()
}

#[test]
fn propose_by_non_owner_fails_and_persists_nothing() {
    let cfg = EngineConfig::standard();
    let mut ms = three_owner_registry(&cfg);
    let r = create_transaction(&cfg, &mut ms, id(9), 1, id(50), Vec::new(), vec![1, 2]);
    assert_eq!(r.err(), Some(ErrorCode::NotAnOwner));
    assert!(ms.used_nonces.is_empty());
}

#[test]
fn reused_nonce_is_rejected() {
    let cfg = EngineConfig::standard();
    let mut ms = three_owner_registry(&cfg);
    let r1 = create_transaction(&cfg, &mut ms, id(1), 42, id(50), Vec::new(), Vec::new());
    assert!(r1.is_ok());
    assert_eq!(ms.used_nonces, vec![42]);
    let r2 = create_transaction(&cfg, &mut ms, id(2), 42, id(50), Vec::new(), Vec::new());
    assert_eq!(r2.err(), Some(ErrorCode::NonceAlreadyUsed));
    assert_eq!(ms.used_nonces, vec![42]);
}

#[test]
fn replay_window_evicts_the_oldest_nonce() {
    let mut cfg = EngineConfig::standard();
    cfg.max_stored_nonces = 2;
    let mut ms = three_owner_registry(&cfg);
    assert!(create_transaction(&cfg, &mut ms, id(1), 1, id(50), Vec::new(), Vec::new()).is_ok());
    assert!(create_transaction(&cfg, &mut ms, id(1), 2, id(50), Vec::new(), Vec::new()).is_ok());
    assert_eq!(ms.used_nonces, vec![1, 2]);
    assert!(create_transaction(&cfg, &mut ms, id(1), 3, id(50), Vec::new(), Vec::new()).is_ok());
    assert_eq!(ms.used_nonces, vec![2, 3]);
    // nonce 1 slid out of the window, so it is accepted again; nonce 3 is not
    let r = create_transaction(&cfg, &mut ms, id(1), 3, id(50), Vec::new(), Vec::new());
    assert_eq!(r.err(), Some(ErrorCode::NonceAlreadyUsed));
    assert!(create_transaction(&cfg, &mut ms, id(1), 1, id(50), Vec::new(), Vec::new()).is_ok());
    assert_eq!(ms.used_nonces, vec![3, 1]);
}

#[test]
fn approve_twice_by_the_same_owner_fails_once() {
    let cfg = EngineConfig::standard();
    let mut ms = three_owner_registry(&cfg);
    let (mut txn, _) =
        create_transaction(&cfg, &mut ms, id(1), 1, id(50), Vec::new(), Vec::new()).unwrap();
    let first = approve_transaction(&ms, &mut txn, id(1));
    assert_eq!(first.unwrap().approvals_count, 1);
    let second = approve_transaction(&ms, &mut txn, id(1));
    assert_eq!(second.err(), Some(ErrorCode::AlreadyApproved));
    assert_eq!(txn.approvals, vec![id(1)]);
}

#[test]
fn approvals_by_distinct_owners_count_each_once() {
    let cfg = EngineConfig::standard();
    let ten: Vec<u64> = (1..=10).collect();
    let mut ms = initialize(&cfg, 7, owners(&ten), 10, id(1)).unwrap();
    let (mut txn, _) =
        create_transaction(&cfg, &mut ms, id(1), 1, id(50), Vec::new(), Vec::new()).unwrap();
    for n in 1..=10u64 {
        let ev = approve_transaction(&ms, &mut txn, id(n)).unwrap();
        assert_eq!(ev.approvals_count, n as u8);
        assert_eq!(ev.threshold, 10);
    }
    assert_eq!(txn.approvals.len(), 10);
}

#[test]
fn approve_by_a_stranger_is_rejected() {
    let cfg = EngineConfig::standard();
    let mut ms = three_owner_registry(&cfg);
    let (mut txn, _) =
        create_transaction(&cfg, &mut ms, id(1), 1, id(50), Vec::new(), Vec::new()).unwrap();
    let r = approve_transaction(&ms, &mut txn, id(9));
    assert_eq!(r.err(), Some(ErrorCode::NotOwner));
    assert!(txn.approvals.is_empty());
}

#[test]
fn execute_needs_quorum_and_happens_once() {
    let cfg = EngineConfig::standard();
    let mut ms = three_owner_registry(&cfg);
    let (mut txn, _) =
        create_transaction(&cfg, &mut ms, id(1), 1, id(50), Vec::new(), vec![7]).unwrap();
    assert_eq!(
        execute_transaction(&ms, &mut txn).err(),
        Some(ErrorCode::NotEnoughApprovals)
    );
    approve_transaction(&ms, &mut txn, id(1)).unwrap();
    assert_eq!(
        execute_transaction(&ms, &mut txn).err(),
        Some(ErrorCode::NotEnoughApprovals)
    );
    approve_transaction(&ms, &mut txn, id(2)).unwrap();
    let req = execute_transaction(&ms, &mut txn).unwrap();
    assert_eq!(req.data, vec![7]);
    assert!(txn.did_execute);
    // repeated execution is rejected, with or without further approvals
    assert_eq!(
        execute_transaction(&ms, &mut txn).err(),
        Some(ErrorCode::AlreadyExecuted)
    );
    assert_eq!(
        approve_transaction(&ms, &mut txn, id(3)).err(),
        Some(ErrorCode::AlreadyExecuted)
    );
    assert_eq!(
        execute_transaction(&ms, &mut txn).err(),
        Some(ErrorCode::AlreadyExecuted)
    );
}

#[test]
fn payload_and_accounts_round_trip_to_the_dispatcher() {
    let cfg = EngineConfig::standard();
    let mut ms = three_owner_registry(&cfg);
    let accounts = vec![
        TransactionAccount { pubkey: id(100), is_signer: true, is_writable: false },
        TransactionAccount { pubkey: id(101), is_signer: false, is_writable: true },
    ];
    let payload: Vec<u8> = vec![0xde, 0xad, 0xbe, 0xef];
    let (mut txn, _) =
        create_transaction(&cfg, &mut ms, id(1), 1, id(50), accounts.clone(), payload.clone())
            .unwrap();
    approve_transaction(&ms, &mut txn, id(1)).unwrap();
    approve_transaction(&ms, &mut txn, id(2)).unwrap();
    let req = execute_transaction(&ms, &mut txn).unwrap();
    assert_eq!(req.program_id, id(50));
    assert_eq!(req.accounts, accounts);
    assert_eq!(req.data, payload);
    // the stored transaction still carries them until the dispatch is closed
    assert_eq!(txn.data, payload);
    let ev = finish_dispatch(&mut txn, id(3));
    assert!(txn.data.is_empty());
    assert!(txn.accounts.is_empty());
    assert_eq!(ev.executor, id(3));
    assert_eq!(ev.multisig_id, 7);
    assert_eq!(ev.nonce, 1);
}

#[test]
fn two_of_three_scenario_without_auto_approval() {
    let cfg = EngineConfig::standard();
    let mut ms = three_owner_registry(&cfg);
    let (mut txn, created) =
        create_transaction(&cfg, &mut ms, id(1), 1, id(50), Vec::new(), vec![9]).unwrap();
    assert_eq!(created.proposer, id(1));
    assert_eq!(created.nonce, 1);
    // creation did not count as an approval, so the proposer may approve
    let ev = approve_transaction(&ms, &mut txn, id(1)).unwrap();
    assert_eq!(ev.approvals_count, 1);
    assert_eq!(
        execute_transaction(&ms, &mut txn).err(),
        Some(ErrorCode::NotEnoughApprovals)
    );
    approve_transaction(&ms, &mut txn, id(2)).unwrap();
    assert!(execute_transaction(&ms, &mut txn).is_ok());
    assert_eq!(
        execute_transaction(&ms, &mut txn).err(),
        Some(ErrorCode::AlreadyExecuted)
    );
}

#[test]
fn two_of_three_scenario_with_auto_approval() {
    let mut cfg = EngineConfig::standard();
    cfg.proposer_auto_approves = true;
    let mut ms = three_owner_registry(&cfg);
    let (mut txn, _) =
        create_transaction(&cfg, &mut ms, id(1), 1, id(50), Vec::new(), vec![9]).unwrap();
    assert_eq!(txn.approvals, vec![id(1)]);
    // creation counted as the proposer's approval, so approving again fails
    assert_eq!(
        approve_transaction(&ms, &mut txn, id(1)).err(),
        Some(ErrorCode::AlreadyApproved)
    );
    let ev = approve_transaction(&ms, &mut txn, id(2)).unwrap();
    assert_eq!(ev.approvals_count, 2);
    assert!(execute_transaction(&ms, &mut txn).is_ok());
    assert_eq!(
        execute_transaction(&ms, &mut txn).err(),
        Some(ErrorCode::AlreadyExecuted)
    );
}

#[test]
fn authorization_seed_is_the_tag_and_the_id_bytes() {
    let req_seed = multisig::engine::authorization_seed(0x0102030405060708);
    let mut expected: Vec<u8> = b"multisig".to_vec();
    expected.extend_from_slice(&[0x08, 0x07, 0x06, 0x05, 0x04, 0x03, 0x02, 0x01]);
    assert_eq!(req_seed, expected);
    let zero_seed = multisig::engine::authorization_seed(0);
    assert_eq!(&zero_seed[..8], b"multisig");
    assert_eq!(&zero_seed[8..], &[0u8; 8]);
}

#[test]
fn nonce_authority_check_reads_bytes_forty_to_seventy_two() {
    let authority: Vec<u8> = (0u8..32).collect();
    let mut data: Vec<u8> = vec![0; 40];
    data.extend_from_slice(&authority);
    assert_eq!(data.len(), 72);
    assert!(check_nonce_authority(&data, &authority).is_ok());
    let mut tampered = data.clone();
    tampered[40] ^= 1;
    assert_eq!(
        check_nonce_authority(&tampered, &authority).err(),
        Some(ErrorCode::InvalidNonceAuthority)
    );
    // data too short to carry an authority passes the check unexamined
    let short: Vec<u8> = vec![0; 71];
    assert!(check_nonce_authority(&short, &authority).is_ok());
}
