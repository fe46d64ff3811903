use aurora_replay::engine::{near_account_to_evm_address, TransactionExecutionResult};
use aurora_replay::errors::Error;
use aurora_replay::evm::{
    EngineError, EngineErrorKind, EvmResult, EvmRun, KvWrite, ResultLog, SubmitResult, TransactionStatus,
};
use aurora_replay::hashchain::BlockchainHashchain;
use aurora_replay::state::{EngineState, Storage};
use aurora_replay::sync::{consume_message, execute_transaction_message, ConsumeMessageOutcome, StorageError};
use aurora_replay::transaction::{
    BlockMessage, BlockMetadata, Message, NewCallArgs, SetOwnerArgs, StartHashchainArgs, SubmitArgs,
    TransactionKind, TransactionMessage,
};
use sha3::Digest;

fn keccak(data: &[u8]) -> Vec<u8> {
    sha3::Keccak256::digest(data).to_vec()
}

fn chain_id() -> Vec<u8> {
    let mut id = vec![0u8; 32];
    id[28..32].copy_from_slice(&1313161554u32.to_be_bytes());
    id
}

fn block(height: u64) -> Message {
    Message::Block(BlockMessage {
        height,
        hash: vec![0x11; 32],
        metadata: BlockMetadata { timestamp: 1, random_seed: vec![0u8; 32] },
    })
}

fn tx(kind: TransactionKind, succeeded: bool) -> TransactionMessage {
    TransactionMessage {
        block_hash: vec![0x11; 32],
        near_receipt_id: vec![0xaa; 32],
        position: 0,
        succeeded,
        signer: b"relay.near".to_vec(),
        caller: b"relay.near".to_vec(),
        attached_near: 0,
        transaction: kind,
        promise_data: vec![],
    }
}

fn seeded(paused: bool) -> Storage {
    let mut s = Storage::new(b"aurora".to_vec());
    consume_message(&mut s, block(100), None).unwrap();
    s.records.engine_state = Some(EngineState {
        chain_id: chain_id(),
        owner_id: b"owner.near".to_vec(),
        bridge_prover_id: b"prover.near".to_vec(),
        upgrade_delay_blocks: 1,
        is_paused: paused,
        key_manager: None,
    });
    s
}

fn success_run() -> EvmRun {
    EvmRun {
        result: EvmResult::Submit(Ok(SubmitResult {
            version: 7,
            status: TransactionStatus::Succeed(vec![]),
            gas_used: 21000,
            logs: vec![],
        })),
        writes: vec![
            KvWrite { key: b"nonce:sender".to_vec(), value: Some(vec![1]) },
            KvWrite { key: b"balance:bb".to_vec(), value: Some(vec![0]) },
        ],
    }
}

fn included(outcome: ConsumeMessageOutcome) -> aurora_replay::sync::TransactionIncludedOutcome {
    match outcome {
        ConsumeMessageOutcome::TransactionIncluded(o) => o,
        _ => panic!("expected an included transaction"),
    }
}

#[test]
fn block_only() {
    let mut s = Storage::new(b"aurora".to_vec());
    let out = consume_message(&mut s, block(100), None).unwrap();
    assert!(matches!(out, ConsumeMessageOutcome::BlockAdded));
    let (height, metadata) = s.get_block(&vec![0x11; 32]).unwrap();
    assert_eq!(height, 100);
    assert_eq!(metadata.timestamp, 1);
    assert_eq!(metadata.random_seed, vec![0u8; 32]);
    assert!(s.get_block(&vec![0x12; 32]).is_none());
}

#[test]
fn block_is_recorded_once() {
    let mut s = Storage::new(b"aurora".to_vec());
    consume_message(&mut s, block(100), None).unwrap();
    consume_message(&mut s, block(200), None).unwrap();
    assert_eq!(s.blocks.len(), 1);
    assert_eq!(s.get_block(&vec![0x11; 32]).unwrap().0, 100);
}

#[test]
fn simple_submit_success() {
    let mut s = seeded(false);
    s.records.hashchain = Some(BlockchainHashchain::new(chain_id(), b"aurora".to_vec(), 100, vec![0u8; 32]));
    let raw = vec![0xf8, 0x65, 0x80, 0x01];
    let out = consume_message(&mut s, Message::Transaction(tx(TransactionKind::Submit(raw.clone()), true)), Some(success_run())).unwrap();
    let o = included(out);
    assert_eq!(o.hash, keccak(&raw));
    match &o.maybe_result {
        Ok(Some(TransactionExecutionResult::Submit(Ok(r)))) => {
            assert_eq!(r.gas_used, 21000);
            assert!(matches!(r.status, TransactionStatus::Succeed(_)));
            assert!(r.logs.is_empty());
        },
        _ => panic!("expected a successful submit"),
    }
    assert_eq!(s.included, vec![keccak(&raw)]);
    assert_eq!(s.records.evm.get(b"nonce:sender"), Some(&vec![1u8]));
    let mut output = vec![7u8, 0];
    output.extend_from_slice(&0u32.to_le_bytes());
    output.extend_from_slice(&21000u64.to_le_bytes());
    output.extend_from_slice(&0u32.to_le_bytes());
    let mut data = b"submit".to_vec();
    data.extend_from_slice(&raw);
    data.extend_from_slice(&output);
    data.extend_from_slice(&[0u8; 256]);
    let mut acc = vec![0u8; 32];
    acc.extend_from_slice(&keccak(&data));
    assert_eq!(s.records.hashchain.as_ref().unwrap().current_block_accumulator, keccak(&acc));
}

#[test]
fn submit_revert_is_persisted() {
    let mut s = seeded(false);
    let run = EvmRun {
        result: EvmResult::Submit(Ok(SubmitResult {
            version: 7,
            status: TransactionStatus::Revert(vec![0x08, 0xc3]),
            gas_used: 30000,
            logs: vec![],
        })),
        writes: vec![KvWrite { key: b"nonce:sender".to_vec(), value: Some(vec![1]) }],
    };
    let raw = vec![1, 2, 3];
    let o = included(consume_message(&mut s, Message::Transaction(tx(TransactionKind::Submit(raw.clone()), true)), Some(run)).unwrap());
    assert!(matches!(o.maybe_result, Ok(Some(TransactionExecutionResult::Submit(Ok(SubmitResult { status: TransactionStatus::Revert(_), .. }))))));
    assert_eq!(s.included.len(), 1);
    assert_eq!(s.records.evm.get(b"nonce:sender"), Some(&vec![1u8]));
}

#[test]
fn engine_refusal_is_not_persisted() {
    let mut s = seeded(false);
    let run = EvmRun {
        result: EvmResult::Submit(Err(EngineError { kind: EngineErrorKind::IncorrectNonce, gas_used: 0 })),
        writes: vec![KvWrite { key: b"nonce:sender".to_vec(), value: Some(vec![9]) }],
    };
    let o = included(consume_message(&mut s, Message::Transaction(tx(TransactionKind::Submit(vec![5]), true)), Some(run)).unwrap());
    assert!(matches!(o.maybe_result, Ok(Some(TransactionExecutionResult::Submit(Err(_))))));
    assert!(s.included.is_empty());
    assert_eq!(s.records.evm.get(b"nonce:sender"), None);
}

#[test]
fn engine_refusal_with_hashchain_becomes_error() {
    let mut s = seeded(false);
    s.records.hashchain = Some(BlockchainHashchain::new(chain_id(), b"aurora".to_vec(), 100, vec![0u8; 32]));
    let run = EvmRun {
        result: EvmResult::Submit(Err(EngineError { kind: EngineErrorKind::InvalidChainId, gas_used: 5 })),
        writes: vec![],
    };
    let o = included(consume_message(&mut s, Message::Transaction(tx(TransactionKind::Submit(vec![5]), true)), Some(run)).unwrap());
    assert_eq!(o.maybe_result.err(), Some(Error::Engine(EngineError { kind: EngineErrorKind::InvalidChainId, gas_used: 5 })));
    assert_eq!(s.records.hashchain.as_ref().unwrap().current_block_accumulator, vec![0u8; 32]);
}

#[test]
fn failed_transaction_ignored() {
    let mut s = seeded(false);
    let out = consume_message(&mut s, Message::Transaction(tx(TransactionKind::PauseContract, false)), None).unwrap();
    assert!(matches!(out, ConsumeMessageOutcome::FailedTransactionIgnored));
    assert!(!s.records.engine_state.as_ref().unwrap().is_paused);
    assert!(s.included.is_empty());
}

#[test]
fn paused_engine_rejects_submit() {
    let mut s = seeded(true);
    s.records.hashchain = Some(BlockchainHashchain::new(chain_id(), b"aurora".to_vec(), 100, vec![0u8; 32]));
    let o = included(consume_message(&mut s, Message::Transaction(tx(TransactionKind::Submit(vec![1]), true)), Some(success_run())).unwrap());
    assert_eq!(o.maybe_result.err(), Some(Error::Paused));
    assert!(s.included.is_empty());
    assert_eq!(s.records.evm.get(b"nonce:sender"), None);
    assert_eq!(s.records.hashchain.as_ref().unwrap().current_block_accumulator, vec![0u8; 32]);
}

#[test]
fn paused_engine_accepts_resume() {
    let mut s = seeded(true);
    let o = included(consume_message(&mut s, Message::Transaction(tx(TransactionKind::ResumeContract, true)), None).unwrap());
    assert!(matches!(o.maybe_result, Ok(None)));
    assert!(!s.records.engine_state.as_ref().unwrap().is_paused);
}

#[test]
fn unknown_block_is_refused() {
    let mut s = seeded(false);
    let mut t = tx(TransactionKind::PauseContract, true);
    t.block_hash = vec![0x99; 32];
    let r = consume_message(&mut s, Message::Transaction(t), None);
    assert_eq!(r.err(), Some(StorageError::BlockNotFound));
}

#[test]
fn hash_is_receipt_id_for_other_kinds() {
    let s = seeded(false);
    let o = execute_transaction_message(&s, tx(TransactionKind::SetOwner(SetOwnerArgs { new_owner: b"new.near".to_vec() }), true), None).unwrap();
    assert_eq!(o.hash, vec![0xaa; 32]);
    assert_eq!(o.diff.engine_state.as_ref().unwrap().owner_id, b"new.near".to_vec());
    assert_eq!(s.records.engine_state.as_ref().unwrap().owner_id, b"owner.near".to_vec());
}

#[test]
fn hash_of_submit_with_args_is_keccak_of_tx_data() {
    let mut s = seeded(false);
    let args = SubmitArgs { tx_data: vec![9, 8, 7], max_gas_price: Some(5), gas_limit: None };
    let o = included(consume_message(&mut s, Message::Transaction(tx(TransactionKind::SubmitWithArgs(args), true)), Some(success_run())).unwrap());
    assert_eq!(o.hash, keccak(&[9, 8, 7]));
}

#[test]
fn missing_evm_run_is_an_error() {
    let mut s = seeded(false);
    let o = included(consume_message(&mut s, Message::Transaction(tx(TransactionKind::Deploy(vec![0x60]), true)), None).unwrap());
    assert_eq!(o.maybe_result.err(), Some(Error::Engine(EngineError { kind: EngineErrorKind::EvmResultMissing, gas_used: 0 })));
}

#[test]
fn submit_without_engine_state_fails() {
    let mut s = Storage::new(b"aurora".to_vec());
    consume_message(&mut s, block(100), None).unwrap();
    let o = included(consume_message(&mut s, Message::Transaction(tx(TransactionKind::Submit(vec![1]), true)), Some(success_run())).unwrap());
    assert_eq!(o.maybe_result.err(), Some(Error::EngineState(aurora_replay::state::EngineStateError::NotFound)));
}

#[test]
fn new_engine_then_pause() {
    let mut s = Storage::new(b"aurora".to_vec());
    consume_message(&mut s, block(100), None).unwrap();
    let args = NewCallArgs { chain_id: chain_id(), owner_id: b"owner.near".to_vec(), bridge_prover_id: b"p.near".to_vec(), upgrade_delay_blocks: 3 };
    consume_message(&mut s, Message::Transaction(tx(TransactionKind::NewEngine(args), true)), None).unwrap();
    assert_eq!(s.records.engine_state.as_ref().unwrap().upgrade_delay_blocks, 3);
    consume_message(&mut s, Message::Transaction(tx(TransactionKind::PauseContract, true)), None).unwrap();
    assert!(s.records.engine_state.as_ref().unwrap().is_paused);
}

#[test]
fn start_hashchain_rolls_to_current_height() {
    let mut s = seeded(true);
    let args = StartHashchainArgs { block_height: 90, block_hashchain: vec![3u8; 32] };
    let o = included(consume_message(&mut s, Message::Transaction(tx(TransactionKind::StartHashchain(args), true)), None).unwrap());
    assert!(matches!(o.maybe_result, Ok(None)));
    assert!(!s.records.engine_state.as_ref().unwrap().is_paused);
    let mut expected = BlockchainHashchain::new(chain_id(), b"aurora".to_vec(), 91, vec![3u8; 32]);
    expected.move_to_block(100).unwrap();
    let mut input = 90u64.to_le_bytes().to_vec();
    input.extend_from_slice(&[3u8; 32]);
    expected.add_block_tx(100, b"start_hashchain", &input, &[], &[0u8; 256]).unwrap();
    let h = s.records.hashchain.as_ref().unwrap();
    assert_eq!(h.current_block_height, 100);
    assert_eq!(h.previous_block_hashchain, expected.previous_block_hashchain);
    assert_eq!(h.current_block_accumulator, expected.current_block_accumulator);
}

#[test]
fn unknown_kind_is_not_hashed() {
    let mut s = seeded(false);
    s.records.hashchain = Some(BlockchainHashchain::new(chain_id(), b"aurora".to_vec(), 100, vec![0u8; 32]));
    let o = included(consume_message(&mut s, Message::Transaction(tx(TransactionKind::Unknown, true)), None).unwrap());
    assert!(matches!(o.maybe_result, Ok(None)));
    assert_eq!(s.records.hashchain.as_ref().unwrap().current_block_accumulator, vec![0u8; 32]);
}

#[test]
fn hashchain_in_the_past_fails_the_transaction() {
    let mut s = seeded(false);
    s.records.hashchain = Some(BlockchainHashchain::new(chain_id(), b"aurora".to_vec(), 101, vec![0u8; 32]));
    let o = included(consume_message(&mut s, Message::Transaction(tx(TransactionKind::PauseContract, true)), None).unwrap());
    assert_eq!(
        o.maybe_result.err(),
        Some(Error::BlockchainHashchain(aurora_replay::hashchain::BlockchainHashchainError::BlockHeightInThePast))
    );
    assert!(!s.records.engine_state.as_ref().unwrap().is_paused);
}

#[test]
fn replay_is_deterministic() {
    let run = |s: &mut Storage| {
        let a = consume_message(s, Message::Transaction(tx(TransactionKind::Submit(vec![4, 5]), true)), Some(success_run())).unwrap();
        let b = consume_message(s, Message::Transaction(tx(TransactionKind::PauseContract, true)), None).unwrap();
        (included(a).hash, included(b).hash)
    };
    let mut s1 = seeded(false);
    let mut s2 = seeded(false);
    assert_eq!(run(&mut s1), run(&mut s2));
    assert_eq!(s1.included, s2.included);
    assert_eq!(s1.records.evm.entries.len(), s2.records.evm.entries.len());
    assert_eq!(s1.records.engine_state.as_ref().unwrap().is_paused, s2.records.engine_state.as_ref().unwrap().is_paused);
}

#[test]
fn evm_writes_delete_keys() {
    let mut s = seeded(false);
    consume_message(&mut s, Message::Transaction(tx(TransactionKind::Submit(vec![1]), true)), Some(success_run())).unwrap();
    let run = EvmRun {
        result: EvmResult::Submit(Ok(SubmitResult { version: 7, status: TransactionStatus::OutOfGas, gas_used: 1, logs: vec![ResultLog { address: vec![1; 20], topics: vec![], data: vec![] }] })),
        writes: vec![KvWrite { key: b"nonce:sender".to_vec(), value: None }],
    };
    consume_message(&mut s, Message::Transaction(tx(TransactionKind::Submit(vec![2]), true)), Some(run)).unwrap();
    assert_eq!(s.records.evm.get(b"nonce:sender"), None);
    assert_eq!(s.records.evm.get(b"balance:bb"), Some(&vec![0u8]));
}

#[test]
fn evm_address_of_hex_account() {
    let account = b"0x00112233445566778899aabbccddeeff00112233";
    let expected: Vec<u8> = vec![0x00, 0x11, 0x22, 0x33, 0x44, 0x55, 0x66, 0x77, 0x88, 0x99, 0xaa, 0xbb, 0xcc, 0xdd, 0xee, 0xff, 0x00, 0x11, 0x22, 0x33];
    assert_eq!(near_account_to_evm_address(account), expected);
}

#[test]
fn evm_address_of_named_account() {
    assert_eq!(near_account_to_evm_address(b"relay.near"), keccak(b"relay.near")[12..].to_vec());
}

#[test]
fn evm_state_is_ordered_by_key() {
    let mut s = seeded(false);
    let run = EvmRun {
        result: EvmResult::Submit(Ok(SubmitResult { version: 7, status: TransactionStatus::Succeed(vec![]), gas_used: 1, logs: vec![] })),
        writes: vec![
            KvWrite { key: vec![3, 1], value: Some(vec![1]) },
            KvWrite { key: vec![1], value: Some(vec![2]) },
            KvWrite { key: vec![3], value: Some(vec![3]) },
            KvWrite { key: vec![2, 9], value: Some(vec![4]) },
            KvWrite { key: vec![1], value: Some(vec![5]) },
        ],
    };
    let o = included(consume_message(&mut s, Message::Transaction(tx(TransactionKind::Submit(vec![1]), true)), Some(run)).unwrap());
    let keys: Vec<Vec<u8>> = o.diff.evm.entries.iter().map(|e| e.key.clone()).collect();
    assert_eq!(keys, vec![vec![1], vec![2, 9], vec![3], vec![3, 1]]);
    assert_eq!(o.diff.evm.get(&[1]), Some(&vec![5u8]));
}

#[test]
fn paused_engine_rejects_bridge_kind_without_writes() {
    let mut s = seeded(true);
    let before = s.records.evm.entries.len();
    let args = aurora_replay::transaction::TransferCallArgs { receiver_id: b"bob.near".to_vec(), amount: 1, memo: None };
    let o = included(consume_message(&mut s, Message::Transaction(tx(TransactionKind::FtTransfer(args), true)), None).unwrap());
    assert_eq!(o.maybe_result.err(), Some(Error::Paused));
    assert!(o.diff.connector.is_none());
    assert!(o.diff.engine_state.as_ref().unwrap().is_paused);
    assert_eq!(s.records.evm.entries.len(), before);
    assert!(s.included.is_empty());
}

#[test]
fn fund_xcc_with_too_long_sub_account_fails() {
    let mut s = seeded(false);
    let ok = aurora_replay::transaction::FundXccArgs { target: vec![1; 20], wnear_account_id: None };
    let o = included(consume_message(&mut s, Message::Transaction(tx(TransactionKind::FundXccSubAccount(ok), true)), None).unwrap());
    assert!(matches!(o.maybe_result, Ok(None)));
    let mut long = Storage::new(vec![b'a'; 30]);
    consume_message(&mut long, block(100), None).unwrap();
    let args = aurora_replay::transaction::FundXccArgs { target: vec![1; 20], wnear_account_id: None };
    let o = included(consume_message(&mut long, Message::Transaction(tx(TransactionKind::FundXccSubAccount(args), true)), None).unwrap());
    assert_eq!(o.maybe_result.err(), Some(Error::FundXccError(aurora_replay::errors::FundXccError::InvalidAccount)));
}
