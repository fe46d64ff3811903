use aurora_replay::artifacts::{ContractConstructor, ERC20Constructor, SelfDestructConstructor, SelfDestructFactoryConstructor};
use aurora_replay::encoding::{encode_submit_result, get_input, method_name};
use aurora_replay::evm::{ResultLog, SubmitResult, TransactionStatus};
use aurora_replay::transaction::{
    NEP141FtOnTransferArgs, Raw, StartHashchainArgs, StorageDepositCallArgs, SubmitArgs, TransactionKind,
};
use std::collections::BTreeMap;

fn empty_abi() -> ethabi::Contract {
    ethabi::Contract {
        constructor: None,
        functions: BTreeMap::new(),
        events: BTreeMap::new(),
        errors: BTreeMap::new(),
        receive: false,
        fallback: false,
    }
}

#[test]
fn input_of_raw_kinds_is_the_payload() {
    assert_eq!(get_input(&TransactionKind::Submit(vec![1, 2, 3])), Some(vec![1, 2, 3]));
    assert_eq!(get_input(&TransactionKind::Deploy(vec![0x60, 0x80])), Some(vec![0x60, 0x80]));
    assert_eq!(get_input(&TransactionKind::PauseContract), Some(vec![]));
    assert_eq!(get_input(&TransactionKind::Unknown), Some(vec![]));
}

#[test]
fn input_of_ft_on_transfer() {
    let args = NEP141FtOnTransferArgs { sender_id: b"bob".to_vec(), amount: 5, msg: b"m".to_vec() };
    let mut expected = vec![3, 0, 0, 0, b'b', b'o', b'b'];
    expected.extend_from_slice(&5u128.to_le_bytes());
    expected.extend_from_slice(&[1, 0, 0, 0, b'm']);
    assert_eq!(get_input(&TransactionKind::FtOnTransfer(args)), Some(expected));
}

#[test]
fn input_of_submit_with_args_and_options() {
    let args = SubmitArgs { tx_data: vec![9], max_gas_price: None, gas_limit: Some(21000) };
    let mut expected = vec![1, 0, 0, 0, 9, 0, 1];
    expected.extend_from_slice(&21000u64.to_le_bytes());
    assert_eq!(get_input(&TransactionKind::SubmitWithArgs(args)), Some(expected));
    let deposit = StorageDepositCallArgs { account_id: None, registration_only: Some(true) };
    assert_eq!(get_input(&TransactionKind::StorageDeposit(deposit)), Some(vec![0, 1, 1]));
}

#[test]
fn input_of_start_hashchain() {
    let args = StartHashchainArgs { block_height: 258, block_hashchain: vec![7; 32] };
    let mut expected = 258u64.to_le_bytes().to_vec();
    expected.extend_from_slice(&[7; 32]);
    assert_eq!(get_input(&TransactionKind::StartHashchain(args)), Some(expected));
}

#[test]
fn method_names_follow_the_protocol() {
    assert_eq!(method_name(&TransactionKind::Submit(vec![])), "submit");
    assert_eq!(method_name(&TransactionKind::Deploy(vec![])), "deploy_code");
    assert_eq!(method_name(&TransactionKind::PauseContract), "pause_contract");
    assert_eq!(method_name(&TransactionKind::FactorySetWNearAddress(vec![])), "factory_set_wnear_address");
    let args = StartHashchainArgs { block_height: 0, block_hashchain: vec![] };
    assert_eq!(method_name(&TransactionKind::StartHashchain(args)), "start_hashchain");
}

#[test]
fn submit_result_encoding() {
    let r = SubmitResult {
        version: 7,
        status: TransactionStatus::Revert(vec![0xab]),
        gas_used: 1,
        logs: vec![ResultLog { address: vec![2; 20], topics: vec![vec![3; 32]], data: vec![4, 5] }],
    };
    let mut expected = vec![7u8, 1, 1, 0, 0, 0, 0xab];
    expected.extend_from_slice(&1u64.to_le_bytes());
    expected.extend_from_slice(&1u32.to_le_bytes());
    expected.extend_from_slice(&[2; 20]);
    expected.extend_from_slice(&1u32.to_le_bytes());
    expected.extend_from_slice(&[3; 32]);
    expected.extend_from_slice(&[2, 0, 0, 0, 4, 5]);
    assert_eq!(encode_submit_result(&r), Some(expected));
    let out_of_gas = SubmitResult { version: 7, status: TransactionStatus::OutOfGas, gas_used: 0, logs: vec![] };
    let mut expected = vec![7u8, 2];
    expected.extend_from_slice(&[0u8; 12]);
    assert_eq!(encode_submit_result(&out_of_gas), Some(expected));
}

#[test]
fn raw_bytes_stand_for_themselves() {
    let raw = Raw(vec![1, 2, 3]);
    assert_eq!(raw.serialize(), vec![1, 2, 3]);
    assert_eq!(Raw::deserialize(&[4, 5]), Raw(vec![4, 5]));
}

#[test]
fn artifact_bytecode_is_decoded() {
    let c = ContractConstructor::compile_from_extended_json(empty_abi(), b"0x6080ff").unwrap();
    assert_eq!(c.code, vec![0x60, 0x80, 0xff]);
    assert!(ContractConstructor::compile_from_extended_json(empty_abi(), b"0x608").is_none());
    assert!(ContractConstructor::compile_from_extended_json(empty_abi(), b"0").is_none());
    let s = ContractConstructor::compile_from_source(empty_abi(), b"6080").unwrap();
    assert_eq!(s.code, vec![0x60, 0x80]);
}

#[test]
fn contract_loaders() {
    assert_eq!(ERC20Constructor::load(empty_abi(), b"00ff").unwrap().0.code, vec![0x00, 0xff]);
    assert_eq!(SelfDestructFactoryConstructor::load(empty_abi(), b"0x01").unwrap().0.code, vec![0x01]);
    assert_eq!(SelfDestructConstructor::load(empty_abi(), b"0x0a0b").unwrap().0.code, vec![0x0a, 0x0b]);
    assert!(SelfDestructConstructor::load(empty_abi(), b"0xzz").is_none());
}
