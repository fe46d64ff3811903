//! Standalone transaction-replay core of an EVM-on-chain engine: a deterministic state
//! machine that ingests block and transaction messages, applies each transaction to a store
//! of engine records, and keeps a block hashchain that commits to every applied transaction.
//!
//! - `sync`: the replay driver (`consume_message`, `execute_transaction_message`).
//! - `engine`: the transaction dispatcher, one handler per transaction kind.
//! - `connector`, `deposit`: the eth-connector's ledger and the bridge operations.
//! - `hashchain`, `bloom`: the block hashchain and the log bloom filter.
//! - `state`, `keyed`: the engine records and the byte-keyed maps that hold them.
//! - `transaction`, `evm`, `errors`: messages, the EVM façade's results, and errors.
//! - `encoding`, `codec`, `crypto`: the bytes the hashchain commits to, and digests.
//! - `artifacts`: compiled test contracts.
use vstd::prelude::*;

pub mod artifacts;
pub mod bloom;
pub mod codec;
pub mod connector;
pub mod crypto;
pub mod deposit;
pub mod encoding;
pub mod engine;
pub mod errors;
pub mod evm;
pub mod hashchain;
pub mod keyed;
pub mod state;
pub mod sync;
pub mod transaction;

verus! {

} // verus!
