//! The replay driver: consumes the upstream stream one message at a time, records blocks,
//! replays transactions and commits what they leave when the persistence rule allows.
use vstd::prelude::*;
use crate::codec::copy_bytes;
use crate::bloom::logs_bloom;
use crate::connector::name_bytes;
use crate::crypto::keccak_of;
use crate::encoding::{submit_result_encoding, submit_result_fits};
use crate::engine::{
    execute_spec, execute_transaction, is_paused, message_fits, pause_exempt, result_view,
    tx_hash_spec, with_writes, ExecResultView, TransactionExecutionResult,
};
use crate::evm::{EvmResult, SubmitResult};
use crate::hashchain::{added, tx_digest, HashchainView};
use crate::errors::Error;
use crate::evm::EvmRun;
use crate::keyed::bytes_eq;
use crate::state::{BlockRecord, EngineRecords, RecordsView, Storage};
use crate::transaction::{BlockMetadata, Message, TransactionKind, TransactionMessage};

verus! {

/// Why the driver could not replay a message.
#[derive(Debug, Clone, Copy, PartialEq, Eq, Structural)]
pub enum StorageError {
    /// The transaction names a block the store has not seen.
    BlockNotFound,
}

/// A transaction that was replayed.
#[derive(Debug)]
pub struct TransactionIncludedOutcome {
    pub hash: Vec<u8>,
    pub info: TransactionMessage,
    /// The engine records as the transaction leaves them (as they were, on failure); every
    /// map in them lists its entries in increasing order of key.
    pub diff: EngineRecords,
    pub maybe_result: Result<Option<TransactionExecutionResult>, Error>,
}

/// What consuming one message did.
#[derive(Debug)]
pub enum ConsumeMessageOutcome {
    BlockAdded,
    FailedTransactionIgnored,
    TransactionIncluded(TransactionIncludedOutcome),
}

/// A block as values.
pub struct BlockView {
    pub hash: Seq<u8>,
    pub height: u64,
    pub timestamp: u64,
    pub random_seed: Seq<u8>,
}

pub open spec fn block_view(b: BlockRecord) -> BlockView {
    BlockView {
        hash: b.hash@,
        height: b.height,
        timestamp: b.metadata.timestamp,
        random_seed: b.metadata.random_seed@,
    }
}

/// The store as values.
pub struct StorageView {
    pub blocks: Seq<BlockView>,
    pub engine_account_id: Seq<u8>,
    pub records: RecordsView,
    pub included: Seq<Seq<u8>>,
}

impl View for Storage {
    type V = StorageView;

    open spec fn view(&self) -> StorageView {
        StorageView {
            blocks: self.blocks@.map_values(|b: BlockRecord| block_view(b)),
            engine_account_id: self.engine_account_id@,
            records: self.records@,
            included: self.included@.map_values(|h: Vec<u8>| h@),
        }
    }
}

/// A replayed transaction as values.
pub struct IncludedView {
    pub hash: Seq<u8>,
    pub info: TransactionMessage,
    pub diff: RecordsView,
    pub result: Result<Option<ExecResultView>, Error>,
}

pub enum OutcomeView {
    BlockAdded,
    FailedTransactionIgnored,
    TransactionIncluded(IncludedView),
}

impl View for TransactionIncludedOutcome {
    type V = IncludedView;

    open spec fn view(&self) -> IncludedView {
        IncludedView {
            hash: self.hash@,
            info: self.info,
            diff: self.diff@,
            result: result_view(self.maybe_result),
        }
    }
}

impl View for ConsumeMessageOutcome {
    type V = OutcomeView;

    open spec fn view(&self) -> OutcomeView {
        match self {
            ConsumeMessageOutcome::BlockAdded => OutcomeView::BlockAdded,
            ConsumeMessageOutcome::FailedTransactionIgnored => OutcomeView::FailedTransactionIgnored,
            ConsumeMessageOutcome::TransactionIncluded(o) => OutcomeView::TransactionIncluded(o@),
        }
    }
}

/// The first block with hash `hash`.
pub open spec fn block_of(blocks: Seq<BlockView>, hash: Seq<u8>) -> Option<BlockView>
    decreases blocks.len(),
{
    if blocks.len() == 0 {
        None
    } else if blocks[0].hash == hash {
        Some(blocks[0])
    } else {
        block_of(blocks.drop_first(), hash)
    }
}

/// Whether a transaction's effects are committed: unless it failed, or the EVM refused it.
pub open spec fn persists(result: Result<Option<ExecResultView>, Error>) -> bool {
    match result {
        Err(_) => false,
        Ok(Some(ExecResultView::Submit(Err(_)))) => false,
        _ => true,
    }
}

/// Replaying a transaction message against the store, without committing anything.
pub open spec fn included_spec(s: StorageView, t: TransactionMessage, evm: Option<EvmRun>) -> Result<IncludedView, StorageError> {
    match block_of(s.blocks, t.block_hash@) {
        None => Err(StorageError::BlockNotFound),
        Some(b) => {
            let (diff, result) = execute_spec(s.records, t, b.height, s.engine_account_id, evm);
            Ok(IncludedView { hash: tx_hash_spec(t), info: t, diff, result })
        },
    }
}

/// What consuming one message does to the store, and what it reports. A block is recorded
/// the first time its hash is seen. A transaction that failed upstream is ignored; one whose
/// block is unknown is refused; any other is replayed, and what it leaves is committed, with
/// its hash, exactly when it persists.
pub open spec fn consume_spec(s: StorageView, m: Message, evm: Option<EvmRun>) -> (StorageView, Result<OutcomeView, StorageError>) {
    match m {
        Message::Block(b) => {
            let bv = BlockView {
                hash: b.hash@,
                height: b.height,
                timestamp: b.metadata.timestamp,
                random_seed: b.metadata.random_seed@,
            };
            (
                if block_of(s.blocks, b.hash@) is Some { s } else { StorageView { blocks: s.blocks.push(bv), ..s } },
                Ok(OutcomeView::BlockAdded),
            )
        },
        Message::Transaction(t) => if !t.succeeded {
            (s, Ok(OutcomeView::FailedTransactionIgnored))
        } else {
            match included_spec(s, t, evm) {
                Err(e) => (s, Err(e)),
                Ok(o) => (
                    if persists(o.result) {
                        StorageView { records: o.diff, included: s.included.push(o.hash), ..s }
                    } else {
                        s
                    },
                    Ok(OutcomeView::TransactionIncluded(o)),
                ),
            }
        },
    }
}

/// Consuming `msgs` in order, the `i`-th with the EVM run `evms[i]`: the store at the end and
/// every outcome.
pub open spec fn replay(s: StorageView, msgs: Seq<Message>, evms: Seq<Option<EvmRun>>) -> (StorageView, Seq<Result<OutcomeView, StorageError>>)
    decreases msgs.len(),
{
    if msgs.len() == 0 || evms.len() != msgs.len() {
        (s, Seq::empty())
    } else {
        let (before, outcomes) = replay(s, msgs.drop_last(), evms.drop_last());
        let (after, outcome) = consume_spec(before, msgs.last(), evms.last());
        (after, outcomes.push(outcome))
    }
}

/// Determinism: replaying the same messages, with the same EVM runs, from equal stores ends in
/// equal stores with equal outcomes. (`consume_message` is bound to `consume_spec`, a function
/// of the store, the message and the EVM run alone.)
pub proof fn lemma_replay_deterministic(
    s1: StorageView,
    s2: StorageView,
    msgs: Seq<Message>,
    evms: Seq<Option<EvmRun>>,
)
    requires
        s1 == s2,
    ensures
        replay(s1, msgs, evms) == replay(s2, msgs, evms),
{
}

/// No effect on failure: a transaction that fails, or that the EVM refuses, leaves the store
/// exactly as it was.
pub proof fn lemma_failure_leaves_store(s: StorageView, t: TransactionMessage, evm: Option<EvmRun>)
    requires
        included_spec(s, t, evm) is Err || !persists(included_spec(s, t, evm).unwrap().result),
    ensures
        consume_spec(s, Message::Transaction(t), evm).0 == s,
{
}

/// Hash identity: a replayed transaction is known by the Keccak-256 digest of its signed EVM
/// transaction for the two submit kinds, and by its receipt id for every other kind.
pub proof fn lemma_hash_identity(s: StorageView, t: TransactionMessage, evm: Option<EvmRun>)
    requires
        included_spec(s, t, evm) is Ok,
    ensures
        included_spec(s, t, evm).unwrap().hash == match t.transaction {
            crate::transaction::TransactionKind::Submit(raw) => crate::crypto::keccak_of(raw@),
            crate::transaction::TransactionKind::SubmitWithArgs(a) => crate::crypto::keccak_of(a.tx_data@),
            _ => t.near_receipt_id@,
        },
{
}

/// Failed-upstream passthrough: a transaction that failed upstream is reported as ignored and
/// leaves the store untouched.
pub proof fn lemma_failed_upstream_ignored(s: StorageView, t: TransactionMessage, evm: Option<EvmRun>)
    requires
        !t.succeeded,
    ensures
        consume_spec(s, Message::Transaction(t), evm) == (s, Ok::<_, StorageError>(OutcomeView::FailedTransactionIgnored)),
{
}

/// A paused engine refuses every kind it does not exempt: the transaction is reported with
/// the error `Paused`, its diff is the records as they were, and the store is untouched (no
/// state change, no hashchain entry).
pub proof fn lemma_paused_engine_refuses(s: StorageView, t: TransactionMessage, evm: Option<EvmRun>)
    requires
        t.succeeded,
        block_of(s.blocks, t.block_hash@) is Some,
        is_paused(s.records),
        !pause_exempt(t.transaction),
        message_fits(t, s.engine_account_id),
    ensures
        consume_spec(s, Message::Transaction(t), evm).0 == s,
        consume_spec(s, Message::Transaction(t), evm).1 == Ok::<_, StorageError>(
            OutcomeView::TransactionIncluded(
                IncludedView { hash: tx_hash_spec(t), info: t, diff: s.records, result: Err(Error::Paused) },
            ),
        ),
{
}

/// The hashchain after a signed transaction `raw` whose EVM result is `r` at block `height`:
/// none while no hashchain is started, else the transaction is added to it.
pub open spec fn submit_hashchain(h: Option<HashchainView>, height: u64, raw: Seq<u8>, r: SubmitResult) -> Option<HashchainView> {
    match h {
        None => None,
        Some(hv) => Some(
            added(
                hv,
                height as nat,
                tx_digest(name_bytes("submit"@), raw, submit_result_encoding(r), logs_bloom(r.logs@)),
            ),
        ),
    }
}

/// A signed transaction that the EVM ran to an end, successful or reverted, on a running
/// engine: it is reported with the EVM's result under the digest of its bytes, and committed
/// with the EVM's writes and, when a hashchain is started, its hashchain entry.
pub proof fn lemma_submit_commits(s: StorageView, t: TransactionMessage, raw: Vec<u8>, run: EvmRun, r: SubmitResult)
    requires
        t.succeeded,
        t.transaction == TransactionKind::Submit(raw),
        block_of(s.blocks, t.block_hash@) is Some,
        s.records.engine_state is Some,
        !is_paused(s.records),
        message_fits(t, s.engine_account_id),
        run.result == EvmResult::Submit(Ok(r)),
        s.records.hashchain is Some ==> submit_result_fits(r) && s.records.hashchain.unwrap().height
            <= block_of(s.blocks, t.block_hash@).unwrap().height,
    ensures
        ({
            let diff = RecordsView {
                hashchain: submit_hashchain(
                    s.records.hashchain,
                    block_of(s.blocks, t.block_hash@).unwrap().height,
                    raw@,
                    r,
                ),
                ..with_writes(s.records, run)
            };
            &&& consume_spec(s, Message::Transaction(t), Some(run)).1 == Ok::<_, StorageError>(
                OutcomeView::TransactionIncluded(
                    IncludedView {
                        hash: keccak_of(raw@),
                        info: t,
                        diff,
                        result: Ok(Some(ExecResultView::Submit(Ok(r)))),
                    },
                ),
            )
            &&& consume_spec(s, Message::Transaction(t), Some(run)).0 == (StorageView {
                records: diff,
                included: s.included.push(keccak_of(raw@)),
                ..s
            })
        }),
{
}

/// The view of a driver result.
pub open spec fn outcome_view(r: Result<ConsumeMessageOutcome, StorageError>) -> Result<OutcomeView, StorageError> {
    match r {
        Ok(o) => Ok(o@),
        Err(e) => Err(e),
    }
}

pub open spec fn included_view(r: Result<TransactionIncludedOutcome, StorageError>) -> Result<IncludedView, StorageError> {
    match r {
        Ok(o) => Ok(o@),
        Err(e) => Err(e),
    }
}

impl Storage {
    /// The height and metadata of the first block with hash `hash`.
    pub fn get_block(&self, hash: &Vec<u8>) -> (r: Option<(u64, BlockMetadata)>)
        ensures
            match block_of(self@.blocks, hash@) {
                None => r is None,
                Some(b) => r is Some && r.unwrap().0 == b.height && r.unwrap().1.timestamp == b.timestamp
                    && r.unwrap().1.random_seed@ == b.random_seed,
            },
    {
        let ghost all = self@.blocks;
        assert(all.subrange(0, all.len() as int) =~= all);
        let mut i: usize = 0;
        while i < self.blocks.len()
            invariant
                i <= self.blocks@.len(),
                all == self@.blocks,
                block_of(all, hash@) == block_of(all.subrange(i as int, all.len() as int), hash@),
            decreases self.blocks@.len() - i,
        {
            let ghost rest = all.subrange(i as int, all.len() as int);
            assert(rest.drop_first() =~= all.subrange(i + 1, all.len() as int));
            assert(rest[0] == block_view(self.blocks@[i as int]));
            let b = &self.blocks[i];
            if bytes_eq(b.hash.as_slice(), hash.as_slice()) {
                return Some((b.height, BlockMetadata { timestamp: b.metadata.timestamp, random_seed: copy_bytes(b.metadata.random_seed.as_slice()) }));
            }
            i = i + 1;
        }
        assert(all.subrange(i as int, all.len() as int) =~= Seq::<BlockView>::empty());
        None
    }
}

/// Replays a transaction message against the store without committing anything (a dry run).
pub fn execute_transaction_message(storage: &Storage, transaction_message: TransactionMessage, evm: Option<EvmRun>) -> (r: Result<TransactionIncludedOutcome, StorageError>)
    requires
        storage.wf(),
    ensures
        included_view(r) == included_spec(storage@, transaction_message, evm),
        r is Ok ==> r.unwrap().diff.wf(),
{
    let (block_height, block_metadata) = match storage.get_block(&transaction_message.block_hash) {
        None => {
            return Err(StorageError::BlockNotFound);
        },
        Some(b) => b,
    };
    let (hash, diff, maybe_result) = execute_transaction(
        &transaction_message,
        block_height,
        &block_metadata,
        &storage.engine_account_id,
        &storage.records,
        evm,
    );
    Ok(TransactionIncludedOutcome { hash, info: transaction_message, diff, maybe_result })
}

/// Consumes one message of the upstream stream.
pub fn consume_message(storage: &mut Storage, message: Message, evm: Option<EvmRun>) -> (r: Result<ConsumeMessageOutcome, StorageError>)
    requires
        old(storage).wf(),
    ensures
        final(storage).wf(),
        (final(storage)@, outcome_view(r)) == consume_spec(old(storage)@, message, evm),
        message is Transaction && !message->Transaction_0.succeeded ==> (r matches Ok(
            ConsumeMessageOutcome::FailedTransactionIgnored,
        )) && final(storage)@ == old(storage)@,
        r matches Ok(ConsumeMessageOutcome::TransactionIncluded(o)) ==> o.hash@ == tx_hash_spec(o.info),
        (r matches Ok(ConsumeMessageOutcome::TransactionIncluded(o)) && !persists(result_view(o.maybe_result)))
            ==> final(storage)@ == old(storage)@,
{
    match message {
        Message::Block(block_message) => {
            if storage.get_block(&block_message.hash).is_none() {
                storage.blocks.push(BlockRecord {
                    hash: block_message.hash,
                    height: block_message.height,
                    metadata: block_message.metadata,
                });
                assert(storage@.blocks =~= old(storage)@.blocks.push(BlockView {
                    hash: block_message.hash@,
                    height: block_message.height,
                    timestamp: block_message.metadata.timestamp,
                    random_seed: block_message.metadata.random_seed@,
                }));
            }
            Ok(ConsumeMessageOutcome::BlockAdded)
        },
        Message::Transaction(transaction_message) => {
            if !transaction_message.succeeded {
                return Ok(ConsumeMessageOutcome::FailedTransactionIgnored);
            }
            let outcome = execute_transaction_message(storage, transaction_message, evm)?;
            let persist = match &outcome.maybe_result {
                Err(_) => false,
                Ok(Some(TransactionExecutionResult::Submit(Err(_)))) => false,
                _ => true,
            };
            if persist {
                storage.records = outcome.diff.copy();
                storage.included.push(copy_bytes(outcome.hash.as_slice()));
                assert(storage@.included =~= old(storage)@.included.push(outcome.hash@));
            }
            Ok(ConsumeMessageOutcome::TransactionIncluded(outcome))
        },
    }
}

} // verus!
