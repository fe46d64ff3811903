use aurora_replay::bloom::{get_log_bloom, get_logs_bloom, log2, zero_bloom, Bloom};
use aurora_replay::crypto::{keccak256, sha256};
use aurora_replay::evm::ResultLog;
use aurora_replay::hashchain::{BlockchainHashchain, BlockchainHashchainError};
use sha3::Digest;

fn keccak(data: &[u8]) -> Vec<u8> {
    sha3::Keccak256::digest(data).to_vec()
}

fn close(chain_id: &[u8], account: &[u8], height: u64, prev: &[u8], acc: &[u8]) -> Vec<u8> {
    let mut data = Vec::new();
    data.extend_from_slice(chain_id);
    data.extend_from_slice(account);
    data.extend_from_slice(&height.to_be_bytes());
    data.extend_from_slice(prev);
    data.extend_from_slice(acc);
    keccak(&data)
}

fn chain_id() -> Vec<u8> {
    let mut id = vec![0u8; 32];
    id[28..32].copy_from_slice(&1313161554u32.to_be_bytes());
    id
}

#[test]
fn keccak_wrapper_matches_digest() {
    assert_eq!(keccak256(b"abc"), keccak(b"abc"));
    assert_eq!(keccak256(b"").len(), 32);
    assert_ne!(keccak256(b"abc"), b"abc".to_vec());
}

#[test]
fn sha256_wrapper_matches_digest() {
    assert_eq!(sha256(b"abc"), sha2::Sha256::digest(b"abc").to_vec());
}

#[test]
fn new_hashchain_has_zero_accumulator() {
    let h = BlockchainHashchain::new(chain_id(), b"aurora".to_vec(), 10, vec![7u8; 32]);
    assert_eq!(h.get_current_block_height(), 10);
    assert_eq!(h.current_block_accumulator, vec![0u8; 32]);
    assert_eq!(h.get_previous_block_hashchain(), &vec![7u8; 32]);
}

#[test]
fn rollforward_from_ten_to_fifteen() {
    let h0 = vec![0x55u8; 32];
    let mut h = BlockchainHashchain::new(chain_id(), b"aurora".to_vec(), 10, h0.clone());
    h.add_block_tx(15, b"submit", b"in", b"out", &[0u8; 256]).unwrap();
    assert_eq!(h.get_current_block_height(), 15);
    let zero = vec![0u8; 32];
    let mut prev = h0;
    for height in 10..15u64 {
        prev = close(&chain_id(), b"aurora", height, &prev, &zero);
    }
    assert_eq!(h.previous_block_hashchain, prev);
    let mut tx = Vec::new();
    tx.extend_from_slice(b"submit");
    tx.extend_from_slice(b"in");
    tx.extend_from_slice(b"out");
    tx.extend_from_slice(&[0u8; 256]);
    let tx_hash = keccak(&tx);
    let mut acc = zero.clone();
    acc.extend_from_slice(&tx_hash);
    assert_eq!(h.current_block_accumulator, keccak(&acc));
}

#[test]
fn move_twice_equals_move_once() {
    let start = BlockchainHashchain::new(chain_id(), b"aurora".to_vec(), 3, vec![1u8; 32]);
    let mut once = start.clone();
    once.move_to_block(9).unwrap();
    let mut twice = start.clone();
    twice.move_to_block(5).unwrap();
    twice.move_to_block(9).unwrap();
    assert_eq!(once.previous_block_hashchain, twice.previous_block_hashchain);
    assert_eq!(once.current_block_height, twice.current_block_height);
    assert_eq!(once.current_block_accumulator, twice.current_block_accumulator);
}

#[test]
fn move_to_same_or_earlier_block_is_refused() {
    let mut h = BlockchainHashchain::new(chain_id(), b"aurora".to_vec(), 3, vec![1u8; 32]);
    assert_eq!(h.move_to_block(3), Err(BlockchainHashchainError::BlockHeightIncorrect));
    assert_eq!(h.move_to_block(2), Err(BlockchainHashchainError::BlockHeightIncorrect));
    assert_eq!(h.get_current_block_height(), 3);
}

#[test]
fn transaction_in_past_block_is_refused() {
    let mut h = BlockchainHashchain::new(chain_id(), b"aurora".to_vec(), 8, vec![1u8; 32]);
    let before = h.clone();
    assert_eq!(
        h.add_block_tx(7, b"call", b"", b"", &[0u8; 256]),
        Err(BlockchainHashchainError::BlockHeightInThePast)
    );
    assert_eq!(h.current_block_accumulator, before.current_block_accumulator);
    assert_eq!(h.previous_block_hashchain, before.previous_block_hashchain);
}

#[test]
fn swapping_two_transactions_changes_the_block_digest() {
    let base = BlockchainHashchain::new(chain_id(), b"aurora".to_vec(), 4, vec![2u8; 32]);
    let mut ab = base.clone();
    ab.add_block_tx(4, b"call", b"a", b"", &[0u8; 256]).unwrap();
    ab.add_block_tx(4, b"call", b"b", b"", &[0u8; 256]).unwrap();
    let mut ba = base.clone();
    ba.add_block_tx(4, b"call", b"b", b"", &[0u8; 256]).unwrap();
    ba.add_block_tx(4, b"call", b"a", b"", &[0u8; 256]).unwrap();
    assert_ne!(ab.current_block_accumulator, ba.current_block_accumulator);
    ab.move_to_block(5).unwrap();
    ba.move_to_block(5).unwrap();
    assert_ne!(ab.previous_block_hashchain, ba.previous_block_hashchain);
}

#[test]
fn log2_values() {
    assert_eq!(log2(0), 0);
    assert_eq!(log2(1), 0);
    assert_eq!(log2(2), 2);
    assert_eq!(log2(2048), 12);
    assert_eq!(log2(usize::MAX), 64);
}

fn bits_of(input: &[u8]) -> Vec<usize> {
    let h = keccak(input);
    (0..3).map(|k| ((h[2 * k] as usize) << 8 | h[2 * k + 1] as usize) % 2048).collect()
}

#[test]
fn accrue_sets_the_three_selected_bits() {
    let mut b = zero_bloom();
    b.accrue(b"topic");
    let mut expected = vec![0u8; 256];
    for index in bits_of(b"topic") {
        expected[255 - index / 8] |= 1 << (index % 8);
    }
    assert_eq!(b.0, expected);
    let set: u32 = b.0.iter().map(|x| x.count_ones()).sum();
    assert!(set >= 1 && set <= 3);
}

#[test]
fn accrue_bloom_is_bytewise_or() {
    let mut a = Bloom(vec![0u8; 256]);
    a.0[0] = 0b0101;
    a.0[255] = 0x80;
    let mut b = Bloom(vec![0u8; 256]);
    b.0[0] = 0b0011;
    b.0[10] = 1;
    a.accrue_bloom(&b);
    assert_eq!(a.0[0], 0b0111);
    assert_eq!(a.0[10], 1);
    assert_eq!(a.0[255], 0x80);
}

#[test]
fn log_bloom_accrues_address_and_topics() {
    let log = ResultLog { address: vec![0x11; 20], topics: vec![vec![0x22; 32], vec![0x33; 32]], data: vec![1, 2, 3] };
    let bloom = get_log_bloom(&log);
    let mut expected = zero_bloom();
    expected.accrue(&[0x11; 20]);
    expected.accrue(&[0x22; 32]);
    expected.accrue(&[0x33; 32]);
    assert_eq!(bloom.0, expected.0);
    let other = ResultLog { address: vec![0x44; 20], topics: vec![], data: vec![] };
    let both = get_logs_bloom(&vec![log.clone(), other.clone()]);
    let mut merged = get_log_bloom(&log);
    merged.accrue_bloom(&get_log_bloom(&other));
    assert_eq!(both.0, merged.0);
    assert_eq!(get_logs_bloom(&vec![]).0, vec![0u8; 256]);
}
