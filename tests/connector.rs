use aurora_replay::connector::{
    decode_address, parse_json_u128, parse_on_transfer_message, proof_key, Proof, GAS_FOR_FT_TRANSFER_CALL,
    GAS_FOR_RESOLVE_TRANSFER,
};
use aurora_replay::engine::{TransactionExecutionResult, DEFAULT_PREPAID_GAS};
use aurora_replay::errors::{
    AddressError, DepositError, Error, FinishDepositError, FtTransferCallError, FtWithdrawError,
    InitContractError, ParseOnTransferMessageError, StorageFundingError, StorageReadError, TransferError,
    WithdrawError,
};
use aurora_replay::state::Storage;
use aurora_replay::sync::{consume_message, ConsumeMessageOutcome, TransactionIncludedOutcome};
use aurora_replay::transaction::{
    BlockMessage, BlockMetadata, FinishDepositCallArgs, Message, NEP141FtOnTransferArgs,
    PauseEthConnectorCallArgs, PromiseResult, ResolveTransferCallArgs, SetContractDataCallArgs,
    StorageDepositCallArgs, StorageWithdrawCallArgs, TransactionKind, TransactionMessage, TransferCallArgs,
    TransferCallCallArgs, WithdrawCallArgs,
};
use sha3::Digest;

const CUSTODIAN: &str = "d045f7e19b2488924b97f9c145b5e51d0d895a65";

fn custodian_bytes() -> Vec<u8> {
    hex::decode(CUSTODIAN).unwrap()
}

fn store() -> Storage {
    let mut s = Storage::new(b"aurora".to_vec());
    let b = BlockMessage { height: 5, hash: vec![1; 32], metadata: BlockMetadata { timestamp: 0, random_seed: vec![0; 32] } };
    consume_message(&mut s, Message::Block(b), None).unwrap();
    s
}

fn msg_from(caller: &str, kind: TransactionKind) -> Message {
    Message::Transaction(TransactionMessage {
        block_hash: vec![1; 32],
        near_receipt_id: vec![2; 32],
        position: 0,
        succeeded: true,
        signer: caller.as_bytes().to_vec(),
        caller: caller.as_bytes().to_vec(),
        attached_near: 0,
        transaction: kind,
        promise_data: vec![],
    })
}

fn run(s: &mut Storage, caller: &str, kind: TransactionKind) -> TransactionIncludedOutcome {
    match consume_message(s, msg_from(caller, kind), None).unwrap() {
        ConsumeMessageOutcome::TransactionIncluded(o) => o,
        _ => panic!("expected an included transaction"),
    }
}

fn with_connector() -> Storage {
    let mut s = store();
    let args = SetContractDataCallArgs { prover_account: b"prover.near".to_vec(), eth_custodian_address: CUSTODIAN.as_bytes().to_vec() };
    let o = run(&mut s, "aurora", TransactionKind::NewConnector(args));
    assert!(o.maybe_result.is_ok());
    s
}

fn near_balance(s: &Storage, account: &str) -> Option<u128> {
    s.records.connector.as_ref().unwrap().ft.accounts_eth.get(account.as_bytes()).copied()
}

fn finish(s: &mut Storage, owner: &str, amount: u128, fee: u128, key: &[u8]) -> TransactionIncludedOutcome {
    let args = FinishDepositCallArgs {
        new_owner_id: owner.as_bytes().to_vec(),
        amount,
        proof_key: key.to_vec(),
        relayer_id: b"relayer.near".to_vec(),
        fee,
        msg: None,
    };
    run(s, "aurora", TransactionKind::FinishDeposit(args))
}

#[test]
fn new_connector_registers_owner() {
    let s = with_connector();
    let c = s.records.connector.as_ref().unwrap();
    assert_eq!(c.contract.eth_custodian_address, custodian_bytes());
    assert_eq!(c.contract.prover_account, b"prover.near".to_vec());
    assert_eq!(near_balance(&s, "aurora"), Some(0));
}

#[test]
fn new_connector_twice_fails() {
    let mut s = with_connector();
    let args = SetContractDataCallArgs { prover_account: b"p.near".to_vec(), eth_custodian_address: CUSTODIAN.as_bytes().to_vec() };
    let o = run(&mut s, "aurora", TransactionKind::NewConnector(args));
    assert_eq!(o.maybe_result.err(), Some(Error::ConnectorInit(InitContractError::AlreadyInitialized)));
}

#[test]
fn new_connector_with_bad_address_fails() {
    let mut s = store();
    let args = SetContractDataCallArgs { prover_account: b"p.near".to_vec(), eth_custodian_address: b"12".to_vec() };
    let o = run(&mut s, "aurora", TransactionKind::NewConnector(args));
    assert_eq!(o.maybe_result.err(), Some(Error::ConnectorInit(InitContractError::InvalidCustodianAddress)));
}

#[test]
fn connector_kind_without_connector_fails() {
    let mut s = store();
    let o = run(&mut s, "alice.near", TransactionKind::FtTransfer(TransferCallArgs { receiver_id: b"bob.near".to_vec(), amount: 1, memo: None }));
    assert_eq!(o.maybe_result.err(), Some(Error::ConnectorStorage(StorageReadError::KeyNotFound)));
}

#[test]
fn finish_deposit_mints_amount_less_fee() {
    let mut s = with_connector();
    let o = finish(&mut s, "alice.near", 100, 10, b"key1");
    assert!(matches!(o.maybe_result, Ok(None)));
    assert_eq!(near_balance(&s, "alice.near"), Some(90));
    assert_eq!(near_balance(&s, "relayer.near"), Some(10));
    assert_eq!(s.records.connector.as_ref().unwrap().ft.total_eth_supply_on_near, 100);
    let again = finish(&mut s, "alice.near", 100, 10, b"key1");
    assert_eq!(again.maybe_result.err(), Some(Error::FinishDeposit(FinishDepositError::ProofUsed)));
    assert_eq!(near_balance(&s, "alice.near"), Some(90));
}

#[test]
fn finish_deposit_fee_above_amount_fails() {
    let mut s = with_connector();
    let o = finish(&mut s, "alice.near", 5, 6, b"k");
    assert_eq!(
        o.maybe_result.err(),
        Some(Error::FinishDeposit(FinishDepositError::TransferCall(FtTransferCallError::InsufficientAmountForFee)))
    );
}

#[test]
fn ft_transfer_moves_balance() {
    let mut s = with_connector();
    finish(&mut s, "alice.near", 100, 0, b"k");
    run(&mut s, "bob.near", TransactionKind::StorageDeposit(StorageDepositCallArgs { account_id: None, registration_only: None }));
    let o = run(&mut s, "alice.near", TransactionKind::FtTransfer(TransferCallArgs { receiver_id: b"bob.near".to_vec(), amount: 30, memo: None }));
    assert!(matches!(o.maybe_result, Ok(None)));
    assert_eq!(near_balance(&s, "alice.near"), Some(70));
    assert_eq!(near_balance(&s, "bob.near"), Some(30));
}

#[test]
fn ft_transfer_errors() {
    let mut s = with_connector();
    finish(&mut s, "alice.near", 10, 0, b"k");
    let to_self = run(&mut s, "alice.near", TransactionKind::FtTransfer(TransferCallArgs { receiver_id: b"alice.near".to_vec(), amount: 1, memo: None }));
    assert_eq!(to_self.maybe_result.err(), Some(Error::FtTransfer(TransferError::SelfTransfer)));
    let zero = run(&mut s, "alice.near", TransactionKind::FtTransfer(TransferCallArgs { receiver_id: b"aurora".to_vec(), amount: 0, memo: None }));
    assert_eq!(zero.maybe_result.err(), Some(Error::FtTransfer(TransferError::ZeroAmount)));
    let unknown = run(&mut s, "alice.near", TransactionKind::FtTransfer(TransferCallArgs { receiver_id: b"nobody.near".to_vec(), amount: 1, memo: None }));
    assert_eq!(unknown.maybe_result.err(), Some(Error::FtTransfer(TransferError::AccountNotRegistered)));
    let too_much = run(&mut s, "alice.near", TransactionKind::FtTransfer(TransferCallArgs { receiver_id: b"aurora".to_vec(), amount: 11, memo: None }));
    assert_eq!(too_much.maybe_result.err(), Some(Error::FtTransfer(TransferError::InsufficientAmount)));
}

#[test]
fn withdraw_burns_and_respects_pause() {
    let mut s = with_connector();
    finish(&mut s, "alice.near", 50, 0, b"k");
    let o = run(&mut s, "alice.near", TransactionKind::Withdraw(WithdrawCallArgs { recipient_address: vec![3; 20], amount: 20 }));
    assert!(matches!(o.maybe_result, Ok(None)));
    assert_eq!(near_balance(&s, "alice.near"), Some(30));
    assert_eq!(s.records.connector.as_ref().unwrap().ft.total_eth_supply_on_near, 30);
    run(&mut s, "aurora", TransactionKind::SetPausedFlags(PauseEthConnectorCallArgs { paused_mask: 2 }));
    let paused = run(&mut s, "alice.near", TransactionKind::Withdraw(WithdrawCallArgs { recipient_address: vec![3; 20], amount: 1 }));
    assert_eq!(paused.maybe_result.err(), Some(Error::FtWithdraw(WithdrawError::Paused)));
    let too_much = run(&mut s, "aurora", TransactionKind::Withdraw(WithdrawCallArgs { recipient_address: vec![3; 20], amount: 1 }));
    assert_eq!(too_much.maybe_result.err(), Some(Error::FtWithdraw(WithdrawError::FT(FtWithdrawError::InsufficientFunds))));
}

fn on_transfer_message(relayer: &str, fee: u128, recipient: &[u8]) -> Vec<u8> {
    let mut data = fee.to_le_bytes().to_vec();
    data.extend_from_slice(&[0u8; 16]);
    data.extend_from_slice(recipient);
    format!("{}:{}", relayer, hex::encode(data)).into_bytes()
}

#[test]
fn parse_message_with_fee() {
    let m = on_transfer_message("relayer.near", 7, &[9u8; 20]);
    let d = parse_on_transfer_message(&m).unwrap();
    assert_eq!(d.relayer, b"relayer.near".to_vec());
    assert_eq!(d.recipient, vec![9u8; 20]);
    assert_eq!(d.fee, 7);
}

#[test]
fn parse_message_address_only() {
    let m = format!("aurora:{}", "22".repeat(20)).into_bytes();
    let d = parse_on_transfer_message(&m).unwrap();
    assert_eq!(d.relayer, b"aurora".to_vec());
    assert_eq!(d.recipient, vec![0x22u8; 20]);
    assert_eq!(d.fee, 0);
}

#[test]
fn parse_message_errors() {
    assert_eq!(parse_on_transfer_message(b"aurora").err(), Some(ParseOnTransferMessageError::TooManyParts));
    assert_eq!(parse_on_transfer_message(b"a:b:c").err(), Some(ParseOnTransferMessageError::TooManyParts));
    assert_eq!(parse_on_transfer_message(b"a:00").err(), Some(ParseOnTransferMessageError::InvalidAccount));
    assert_eq!(parse_on_transfer_message(b"aurora:zz").err(), Some(ParseOnTransferMessageError::InvalidHexData));
    assert_eq!(parse_on_transfer_message(b"aurora:0011").err(), Some(ParseOnTransferMessageError::WrongMessageFormat));
    let mut data = vec![0u8; 52];
    data[20] = 1;
    let big = format!("aurora:{}", hex::encode(data)).into_bytes();
    assert_eq!(parse_on_transfer_message(&big).err(), Some(ParseOnTransferMessageError::OverflowNumber));
}

#[test]
fn ft_on_transfer_mints_on_aurora_with_relayer_fee() {
    let mut s = with_connector();
    s.records.engine_state = Some(aurora_replay::state::EngineState {
        chain_id: vec![0; 32],
        owner_id: b"owner.near".to_vec(),
        bridge_prover_id: b"prover.near".to_vec(),
        upgrade_delay_blocks: 0,
        is_paused: false,
        key_manager: None,
    });
    run(&mut s, "relayer.near", TransactionKind::RegisterRelayer(vec![5u8; 20]));
    let args = NEP141FtOnTransferArgs { sender_id: b"alice.near".to_vec(), amount: 100, msg: on_transfer_message("relayer.near", 4, &[6u8; 20]) };
    let o = run(&mut s, "aurora", TransactionKind::FtOnTransfer(args));
    assert!(matches!(o.maybe_result, Ok(None)));
    let c = s.records.connector.as_ref().unwrap();
    assert_eq!(c.ft.aurora_balances.get(&[5u8; 20]).copied(), Some(4));
    assert_eq!(c.ft.aurora_balances.get(&[6u8; 20]).copied(), Some(96));
    assert_eq!(c.ft.total_eth_supply_on_aurora, 100);
}

#[test]
fn ft_transfer_call_records_promise() {
    let mut s = with_connector();
    finish(&mut s, "alice.near", 100, 0, b"k");
    let msg = on_transfer_message("relayer.near", 1, &[6u8; 20]);
    let args = TransferCallCallArgs { receiver_id: b"aurora".to_vec(), amount: 40, memo: None, msg: msg.clone() };
    let o = run(&mut s, "alice.near", TransactionKind::FtTransferCall(args));
    match o.maybe_result {
        Ok(Some(TransactionExecutionResult::Promise(p))) => {
            assert_eq!(p.base.target_account_id, b"aurora".to_vec());
            assert_eq!(p.base.method, b"ft_on_transfer".to_vec());
            assert_eq!(p.base.attached_gas, DEFAULT_PREPAID_GAS - GAS_FOR_FT_TRANSFER_CALL);
            let mut args = 10u32.to_le_bytes().to_vec();
            args.extend_from_slice(b"alice.near");
            args.extend_from_slice(&40u128.to_le_bytes());
            args.extend_from_slice(&(msg.len() as u32).to_le_bytes());
            args.extend_from_slice(&msg);
            assert_eq!(p.base.args, args);
            assert_eq!(p.callback.method, b"ft_resolve_transfer".to_vec());
            assert_eq!(p.callback.attached_gas, GAS_FOR_RESOLVE_TRANSFER);
        },
        _ => panic!("expected a promise"),
    }
    assert_eq!(near_balance(&s, "alice.near"), Some(60));
    assert_eq!(near_balance(&s, "aurora"), Some(40));
}

#[test]
fn ft_transfer_call_fee_not_below_amount_fails() {
    let mut s = with_connector();
    finish(&mut s, "alice.near", 100, 0, b"k");
    let args = TransferCallCallArgs { receiver_id: b"aurora".to_vec(), amount: 3, memo: None, msg: on_transfer_message("r.near", 3, &[6u8; 20]) };
    let o = run(&mut s, "alice.near", TransactionKind::FtTransferCall(args));
    assert_eq!(o.maybe_result.err(), Some(Error::FtOnTransfer(FtTransferCallError::InsufficientAmountForFee)));
}

#[test]
fn resolve_transfer_refunds_unused() {
    let mut s = with_connector();
    finish(&mut s, "alice.near", 100, 0, b"k");
    run(&mut s, "bob.near", TransactionKind::StorageDeposit(StorageDepositCallArgs { account_id: None, registration_only: None }));
    run(&mut s, "alice.near", TransactionKind::FtTransfer(TransferCallArgs { receiver_id: b"bob.near".to_vec(), amount: 40, memo: None }));
    let args = ResolveTransferCallArgs { sender_id: b"alice.near".to_vec(), amount: 40, receiver_id: b"bob.near".to_vec() };
    let o = run(&mut s, "aurora", TransactionKind::ResolveTransfer(args, PromiseResult::Successful(b"\"15\"".to_vec())));
    assert!(matches!(o.maybe_result, Ok(None)));
    assert_eq!(near_balance(&s, "alice.near"), Some(75));
    assert_eq!(near_balance(&s, "bob.near"), Some(25));
    let failed = ResolveTransferCallArgs { sender_id: b"alice.near".to_vec(), amount: 40, receiver_id: b"bob.near".to_vec() };
    run(&mut s, "aurora", TransactionKind::ResolveTransfer(failed, PromiseResult::Failed));
    assert_eq!(near_balance(&s, "alice.near"), Some(100));
    assert_eq!(near_balance(&s, "bob.near"), Some(0));
}

#[test]
fn json_amount_parsing() {
    assert_eq!(parse_json_u128(b"\"123\""), Some(123));
    assert_eq!(parse_json_u128(b"\"340282366920938463463374607431768211455\""), Some(u128::MAX));
    assert_eq!(parse_json_u128(b"\"340282366920938463463374607431768211456\""), None);
    assert_eq!(parse_json_u128(b"123"), None);
    assert_eq!(parse_json_u128(b"\"12a\""), None);
    assert_eq!(parse_json_u128(b"\"+7\""), Some(7));
    assert_eq!(parse_json_u128(b"\"\""), None);
    assert_eq!(parse_json_u128(b" \"42\" "), Some(42));
}

#[test]
fn storage_unregister_and_withdraw() {
    let mut s = with_connector();
    finish(&mut s, "alice.near", 10, 0, b"k");
    let refused = run(&mut s, "alice.near", TransactionKind::StorageUnregister(None));
    assert_eq!(refused.maybe_result.err(), Some(Error::FtStorageFunding(StorageFundingError::UnRegisterPositiveBalance)));
    let w = run(&mut s, "alice.near", TransactionKind::StorageWithdraw(StorageWithdrawCallArgs { amount: Some(1) }));
    assert_eq!(w.maybe_result.err(), Some(Error::FtStorageFunding(StorageFundingError::NoAvailableBalance)));
    let nobody = run(&mut s, "nobody.near", TransactionKind::StorageWithdraw(StorageWithdrawCallArgs { amount: None }));
    assert_eq!(nobody.maybe_result.err(), Some(Error::FtStorageFunding(StorageFundingError::NotRegistered)));
    let forced = run(&mut s, "alice.near", TransactionKind::StorageUnregister(Some(true)));
    assert!(matches!(forced.maybe_result, Ok(None)));
    assert_eq!(near_balance(&s, "alice.near"), None);
    assert_eq!(s.records.connector.as_ref().unwrap().ft.total_eth_supply_on_near, 0);
}

#[test]
fn set_connector_data_replaces_custodian() {
    let mut s = with_connector();
    let args = SetContractDataCallArgs { prover_account: b"other.near".to_vec(), eth_custodian_address: "11".repeat(20).into_bytes() };
    run(&mut s, "aurora", TransactionKind::SetConnectorData(args));
    assert_eq!(s.records.connector.as_ref().unwrap().contract.eth_custodian_address, vec![0x11; 20]);
    let bad = SetContractDataCallArgs { prover_account: b"other.near".to_vec(), eth_custodian_address: "zz".repeat(20).into_bytes() };
    let o = run(&mut s, "aurora", TransactionKind::SetConnectorData(bad));
    assert_eq!(o.maybe_result.err(), Some(Error::InvalidAddress(AddressError::FailedDecodeHex)));
}

#[test]
fn address_decoding() {
    assert_eq!(decode_address(CUSTODIAN.as_bytes()), Ok(custodian_bytes()));
    assert_eq!(decode_address(b"abcd"), Err(AddressError::IncorrectLength));
}

fn deposit_log_entry(message: &str, amount: u128, fee: u128, custodian: &[u8]) -> Vec<u8> {
    let signature = sha3::Keccak256::digest(b"Deposited(address,string,uint256,uint256)").to_vec();
    let data = ethabi::encode(&[
        ethabi::Token::String(message.to_string()),
        ethabi::Token::Uint(ethabi::Uint::from(amount)),
        ethabi::Token::Uint(ethabi::Uint::from(fee)),
    ]);
    let mut stream = rlp::RlpStream::new_list(3);
    stream.append(&custodian.to_vec());
    stream.begin_list(2);
    stream.append(&signature);
    stream.append(&vec![0u8; 32]);
    stream.append(&data);
    stream.out().to_vec()
}

fn proof_bytes(log_entry_data: Vec<u8>) -> Vec<u8> {
    let proof: (u64, Vec<u8>, u64, Vec<u8>, Vec<u8>, Vec<Vec<u8>>) = (1, log_entry_data, 1, vec![], vec![], vec![]);
    borsh::to_vec(&proof).unwrap()
}

#[test]
fn test_proof_key_generates_successfully() {
    let recipient = hex::encode([22u8; 20]);
    let message = format!("aurora:{}", recipient);
    let proof = Proof {
        log_index: 1,
        log_entry_data: deposit_log_entry(&message, 123_456_789, 0, &custodian_bytes()),
        receipt_index: 1,
        receipt_data: Vec::new(),
        header_data: Vec::new(),
        proof: Vec::new(),
    };
    let expected_key = "1297721518512077871939115641114233180253108247225100248224214775219368216419218177247";
    let actual_key = String::from_utf8(proof_key(&proof)).unwrap();
    assert_eq!(expected_key, actual_key);
}

#[test]
fn deposit_to_near_account_records_promises() {
    let mut s = with_connector();
    let raw = proof_bytes(deposit_log_entry("alice.near", 1000, 10, &custodian_bytes()));
    let o = run(&mut s, "relayer.near", TransactionKind::Deposit(raw.clone()));
    match o.maybe_result {
        Ok(Some(TransactionExecutionResult::Promise(p))) => {
            assert_eq!(p.base.target_account_id, b"prover.near".to_vec());
            assert_eq!(p.base.method, b"verify_log_entry".to_vec());
            let mut verify_args = raw.clone();
            verify_args.push(0);
            assert_eq!(p.base.args, verify_args);
            assert_eq!(p.callback.target_account_id, b"aurora".to_vec());
            assert_eq!(p.callback.method, b"finish_deposit".to_vec());
            let key = proof_key(&Proof { log_index: 1, log_entry_data: vec![], receipt_index: 1, receipt_data: vec![], header_data: vec![], proof: vec![] });
            let mut args = 10u32.to_le_bytes().to_vec();
            args.extend_from_slice(b"alice.near");
            args.extend_from_slice(&1000u128.to_le_bytes());
            args.extend_from_slice(&(key.len() as u32).to_le_bytes());
            args.extend_from_slice(&key);
            args.extend_from_slice(&12u32.to_le_bytes());
            args.extend_from_slice(b"relayer.near");
            args.extend_from_slice(&10u128.to_le_bytes());
            args.push(0);
            assert_eq!(p.callback.args, args);
        },
        other => panic!("expected a promise, got {:?}", other.err()),
    }
}

#[test]
fn deposit_errors() {
    let mut s = with_connector();
    let garbage = run(&mut s, "relayer.near", TransactionKind::Deposit(vec![1, 2, 3]));
    assert_eq!(garbage.maybe_result.err(), Some(Error::Deposit(DepositError::ProofParseFailed)));
    let not_event = run(&mut s, "relayer.near", TransactionKind::Deposit(proof_bytes(vec![0xc0])));
    assert_eq!(not_event.maybe_result.err(), Some(Error::Deposit(DepositError::EventParseFailed)));
    let other = run(&mut s, "relayer.near", TransactionKind::Deposit(proof_bytes(deposit_log_entry("alice.near", 5, 1, &[7u8; 20]))));
    assert_eq!(other.maybe_result.err(), Some(Error::Deposit(DepositError::CustodianAddressMismatch)));
    let fee = run(&mut s, "relayer.near", TransactionKind::Deposit(proof_bytes(deposit_log_entry("alice.near", 5, 5, &custodian_bytes()))));
    assert_eq!(fee.maybe_result.err(), Some(Error::Deposit(DepositError::InsufficientAmountForFee)));
    run(&mut s, "aurora", TransactionKind::SetPausedFlags(PauseEthConnectorCallArgs { paused_mask: 1 }));
    let paused = run(&mut s, "relayer.near", TransactionKind::Deposit(proof_bytes(deposit_log_entry("alice.near", 5, 1, &custodian_bytes()))));
    assert_eq!(paused.maybe_result.err(), Some(Error::Deposit(DepositError::Paused)));
}

#[test]
fn deposit_to_evm_address_goes_through_transfer_call() {
    let mut s = with_connector();
    let message = format!("aurora:0x{}", "33".repeat(20));
    let raw = proof_bytes(deposit_log_entry(&message, 1000, 10, &custodian_bytes()));
    let o = run(&mut s, "relayer.near", TransactionKind::Deposit(raw));
    match o.maybe_result {
        Ok(Some(TransactionExecutionResult::Promise(p))) => {
            let args = p.callback.args;
            assert_eq!(&args[0..4], &6u32.to_le_bytes());
            assert_eq!(&args[4..10], b"aurora");
            let mut data = 10u128.to_le_bytes().to_vec();
            data.extend_from_slice(&[0u8; 16]);
            data.extend_from_slice(&[0x33u8; 20]);
            let text = format!("aurora:{}", hex::encode(data));
            assert!(args.ends_with(text.as_bytes()));
        },
        _ => panic!("expected a promise"),
    }
}
