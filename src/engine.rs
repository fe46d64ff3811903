//! The transaction dispatcher: each transaction kind applied to the engine records, the EVM's
//! part taken from the run that the EVM façade reports.
use vstd::prelude::*;
use crate::bloom::{empty_bloom, get_logs_bloom, logs_bloom, zero_bloom, Bloom};
use crate::codec::{copy_bytes, frame_fits, framed, framed_vec};
use crate::connector::name_bytes;
use crate::encoding::{
    encode_submit_result, get_input, kind_fits, kind_input, method_name, method_name_of,
    submit_result_encoding, submit_result_fits,
};
use crate::hashchain::{added, tx_digest};
use crate::connector::{
    address_spec, create_contract, decode_address, finish_deposit_spec, ft_on_transfer_spec,
    ft_transfer_call_spec, new_connector_view, resolve_transfer_spec, storage_deposit_spec,
    storage_unregister_spec, storage_withdraw_spec, transfer_call_promise, transfer_near_spec,
    withdraw_spec, PromiseView, PromiseWithCallbackArgs,
};
use crate::deposit::deposit_spec;
use crate::errors::{Error, InitContractError, StorageReadError};
use crate::evm::{EngineError, EngineErrorKind, EvmResult, EvmRun, KvWrite, SubmitResult};
use crate::hashchain::{moved, zero_word, BlockchainHashchain, BlockchainHashchainError, HashchainView};
use crate::keyed::KeyedMap;
use crate::state::{
    ConnectorView, EngineRecords, EngineState, EngineStateError, EngineStateView, RecordsView,
};
use crate::crypto::{keccak256, keccak_of};
use crate::transaction::{BlockMetadata, TransactionKind, TransactionMessage};

verus! {

/// Gas attached to every replayed transaction.
pub const DEFAULT_PREPAID_GAS: u64 = 300_000_000_000_000;

/// The execution environment of one transaction.
#[derive(Debug, Clone)]
pub struct Env {
    pub signer_account_id: Vec<u8>,
    pub predecessor_account_id: Vec<u8>,
    pub current_account_id: Vec<u8>,
    pub block_height: u64,
    pub block_timestamp: u64,
    pub attached_deposit: u128,
    pub random_seed: Vec<u8>,
    pub prepaid_gas: u64,
}

/// The part of the environment that the handlers read.
pub struct EnvView {
    pub predecessor: Seq<u8>,
    pub current: Seq<u8>,
    pub block_height: u64,
    pub prepaid_gas: u64,
}

impl View for Env {
    type V = EnvView;

    open spec fn view(&self) -> EnvView {
        EnvView {
            predecessor: self.predecessor_account_id@,
            current: self.current_account_id@,
            block_height: self.block_height,
            prepaid_gas: self.prepaid_gas,
        }
    }
}

/// What a successful transaction returns.
#[derive(Debug)]
pub enum TransactionExecutionResult {
    /// The EVM's result for a signed transaction, a call, a deployment or a refund.
    Submit(Result<SubmitResult, EngineError>),
    /// The address of a new ERC-20 mirror.
    DeployErc20(Vec<u8>),
    /// A recorded cross-contract call and its callback.
    Promise(PromiseWithCallbackArgs),
}

pub enum ExecResultView {
    Submit(Result<SubmitResult, EngineError>),
    DeployErc20(Seq<u8>),
    Promise((PromiseView, PromiseView)),
}

impl View for TransactionExecutionResult {
    type V = ExecResultView;

    open spec fn view(&self) -> ExecResultView {
        match self {
            TransactionExecutionResult::Submit(r) => ExecResultView::Submit(*r),
            TransactionExecutionResult::DeployErc20(a) => ExecResultView::DeployErc20(a@),
            TransactionExecutionResult::Promise(p) => ExecResultView::Promise(p@),
        }
    }
}

/// The view of a transaction's result.
pub open spec fn result_view(r: Result<Option<TransactionExecutionResult>, Error>) -> Result<Option<ExecResultView>, Error> {
    match r {
        Err(e) => Err(e),
        Ok(None) => Ok(None),
        Ok(Some(x)) => Ok(Some(x@)),
    }
}

/// The error for an EVM transaction that came without an EVM run.
pub open spec fn missing_run() -> Error {
    Error::Engine(EngineError { kind: EngineErrorKind::EvmResultMissing, gas_used: 0 })
}

/// The EVM state after one raw write.
pub open spec fn apply_write(m: Map<Seq<u8>, Seq<u8>>, w: KvWrite) -> Map<Seq<u8>, Seq<u8>> {
    match w.value {
        Some(v) => m.insert(w.key@, v@),
        None => m.remove(w.key@),
    }
}

/// The EVM state after the raw writes `ws`, in order.
pub open spec fn apply_writes(m: Map<Seq<u8>, Seq<u8>>, ws: Seq<KvWrite>) -> Map<Seq<u8>, Seq<u8>>
    decreases ws.len(),
{
    if ws.len() == 0 {
        m
    } else {
        apply_write(apply_writes(m, ws.drop_last()), ws.last())
    }
}

/// Applies an EVM run's raw writes, in order, to the EVM state.
pub fn write_evm_state(evm: &mut KeyedMap<Vec<u8>>, writes: &Vec<KvWrite>)
    requires
        old(evm).wf(),
    ensures
        final(evm).wf(),
        final(evm)@ == apply_writes(old(evm)@, writes@),
{
    let mut i: usize = 0;
    while i < writes.len()
        invariant
            evm.wf(),
            i <= writes@.len(),
            evm@ == apply_writes(old(evm)@, writes@.subrange(0, i as int)),
        decreases writes@.len() - i,
    {
        let w = &writes[i];
        match &w.value {
            Some(v) => evm.insert(copy_bytes(w.key.as_slice()), copy_bytes(v.as_slice())),
            None => evm.remove(w.key.as_slice()),
        }
        assert(writes@.subrange(0, i + 1).drop_last() =~= writes@.subrange(0, i as int));
        i = i + 1;
    }
    assert(writes@.subrange(0, i as int) =~= writes@);
}

/// The records with an EVM run's writes applied.
pub open spec fn with_writes(r: RecordsView, run: EvmRun) -> RecordsView {
    RecordsView { evm: apply_writes(r.evm, run.writes@), ..r }
}

/// A signed transaction, call, deployment or refund: the EVM run's result, with its writes.
pub open spec fn submit_spec(r: RecordsView, evm: Option<EvmRun>) -> Result<(RecordsView, Option<ExecResultView>), Error> {
    match evm {
        Some(run) => match run.result {
            EvmResult::Submit(res) => Ok((with_writes(r, run), Some(ExecResultView::Submit(res)))),
            _ => Err(missing_run()),
        },
        None => Err(missing_run()),
    }
}

/// Runs the EVM's part of a signed transaction, call, deployment or refund.
fn run_submit(records: &mut EngineRecords, evm: Option<EvmRun>) -> (r: Result<Option<TransactionExecutionResult>, Error>)
    requires
        old(records).wf(),
    ensures
        final(records).wf(),
        match submit_spec(old(records)@, evm) {
            Ok((rv, res)) => result_view(r) == Ok::<_, Error>(res) && final(records)@ == rv,
            Err(e) => r == Err::<Option<TransactionExecutionResult>, _>(e),
        },
{
    match evm {
        Some(run) => match run.result {
            EvmResult::Submit(res) => {
                write_evm_state(&mut records.evm, &run.writes);
                Ok(Some(TransactionExecutionResult::Submit(res)))
            },
            _ => Err(Error::Engine(EngineError { kind: EngineErrorKind::EvmResultMissing, gas_used: 0 })),
        },
        None => Err(Error::Engine(EngineError { kind: EngineErrorKind::EvmResultMissing, gas_used: 0 })),
    }
}

/// The engine is paused.
pub open spec fn is_paused(r: RecordsView) -> bool {
    r.engine_state is Some && r.engine_state.unwrap().is_paused
}

/// The kinds that a paused engine still accepts: starting the hashchain, resuming, and
/// the kind it ignores.
pub open spec fn pause_exempt(k: TransactionKind) -> bool {
    match k {
        TransactionKind::StartHashchain(_) | TransactionKind::ResumeContract
        | TransactionKind::ResumePrecompiles(_) | TransactionKind::Unknown => true,
        _ => false,
    }
}

/// The kinds that need the engine state.
pub open spec fn needs_engine_state(k: TransactionKind) -> bool {
    match k {
        TransactionKind::Submit(_) | TransactionKind::SubmitWithArgs(_) | TransactionKind::Call(_)
        | TransactionKind::Deploy(_) | TransactionKind::DeployErc20(_)
        | TransactionKind::FtOnTransfer(_) | TransactionKind::RegisterRelayer(_)
        | TransactionKind::RefundOnError(Some(_)) | TransactionKind::SetOwner(_)
        | TransactionKind::SetUpgradeDelayBlocks(_) | TransactionKind::PauseContract
        | TransactionKind::ResumeContract | TransactionKind::SetKeyManager(_)
        | TransactionKind::StartHashchain(_) => true,
        _ => false,
    }
}

/// The kinds that act on the connector record; a transfer notification does when it comes
/// from the engine itself.
pub open spec fn is_connector_kind(k: TransactionKind, env: EnvView) -> bool {
    match k {
        TransactionKind::FtOnTransfer(_) => env.predecessor == env.current,
        TransactionKind::FtTransferCall(_) | TransactionKind::ResolveTransfer(..)
        | TransactionKind::FtTransfer(_) | TransactionKind::Withdraw(_) | TransactionKind::Deposit(_)
        | TransactionKind::FinishDeposit(_) | TransactionKind::StorageDeposit(_)
        | TransactionKind::StorageUnregister(_) | TransactionKind::StorageWithdraw(_)
        | TransactionKind::SetPausedFlags(_) | TransactionKind::SetConnectorData(_) => true,
        _ => false,
    }
}

/// The kinds whose effect the EVM computes.
pub open spec fn is_evm_kind(k: TransactionKind, env: EnvView) -> bool {
    match k {
        TransactionKind::FtOnTransfer(_) => env.predecessor != env.current,
        TransactionKind::Submit(_) | TransactionKind::SubmitWithArgs(_) | TransactionKind::Call(_)
        | TransactionKind::Deploy(_) | TransactionKind::DeployErc20(_)
        | TransactionKind::RefundOnError(Some(_)) => true,
        _ => false,
    }
}

pub open spec fn with_connector(r: RecordsView, c: ConnectorView) -> RecordsView {
    RecordsView { connector: Some(c), ..r }
}

pub open spec fn with_state(r: RecordsView, s: EngineStateView) -> RecordsView {
    RecordsView { engine_state: Some(s), ..r }
}

/// What a kind that acts on the connector does, given the connector record `c`.
pub open spec fn connector_kind_spec(r: RecordsView, c: ConnectorView, k: TransactionKind, env: EnvView) -> Result<(RecordsView, Option<ExecResultView>), Error> {
    let pred = env.predecessor;
    let cur = env.current;
    match k {
        TransactionKind::FtOnTransfer(a) => match ft_on_transfer_spec(c, r.relayers, a.amount, a.msg@) {
            Ok(c2) => Ok((with_connector(r, c2), None)),
            Err(e) => Err(Error::FtOnTransfer(e)),
        },
        TransactionKind::FtTransferCall(a) => match ft_transfer_call_spec(c, pred, cur, a.receiver_id@, a.amount, a.msg@) {
            Ok(c2) => Ok((with_connector(r, c2), Some(ExecResultView::Promise(transfer_call_promise(pred, cur, a.receiver_id@, a.amount, a.msg@, env.prepaid_gas))))),
            Err(e) => Err(Error::FtOnTransfer(e)),
        },
        TransactionKind::ResolveTransfer(a, pr) => match resolve_transfer_spec(c, a.sender_id@, a.receiver_id@, a.amount, pr) {
            Ok(c2) => Ok((with_connector(r, c2), None)),
            Err(e) => Err(Error::FtTransfer(e)),
        },
        TransactionKind::FtTransfer(a) => match transfer_near_spec(c, pred, a.receiver_id@, a.amount) {
            Ok(c2) => Ok((with_connector(r, c2), None)),
            Err(e) => Err(Error::FtTransfer(e)),
        },
        TransactionKind::Withdraw(a) => match withdraw_spec(c, cur, pred, a.amount) {
            Ok(c2) => Ok((with_connector(r, c2), None)),
            Err(e) => Err(Error::FtWithdraw(e)),
        },
        TransactionKind::Deposit(raw) => match deposit_spec(c, raw@, cur, pred) {
            Ok(p) => Ok((r, Some(ExecResultView::Promise(p)))),
            Err(e) => Err(Error::Deposit(e)),
        },
        TransactionKind::FinishDeposit(a) => match finish_deposit_spec(c, pred, cur, a) {
            Ok(c2) => Ok((with_connector(r, c2), match a.msg {
                None => None,
                Some(m) => Some(ExecResultView::Promise(transfer_call_promise(pred, cur, m.receiver_id@, m.amount, m.msg@, env.prepaid_gas))),
            })),
            Err(e) => Err(Error::FinishDeposit(e)),
        },
        TransactionKind::StorageDeposit(a) => Ok((with_connector(r, storage_deposit_spec(c, match a.account_id {
            Some(x) => x@,
            None => pred,
        })), None)),
        TransactionKind::StorageUnregister(force) => match storage_unregister_spec(c, pred, force) {
            Ok(c2) => Ok((with_connector(r, c2), None)),
            Err(e) => Err(Error::FtStorageFunding(e)),
        },
        TransactionKind::StorageWithdraw(a) => match storage_withdraw_spec(c, pred, a.amount) {
            Some(e) => Err(Error::FtStorageFunding(e)),
            None => Ok((r, None)),
        },
        TransactionKind::SetPausedFlags(a) => Ok((with_connector(r, ConnectorView { paused_mask: a.paused_mask, ..c }), None)),
        TransactionKind::SetConnectorData(a) => match address_spec(a.eth_custodian_address@) {
            Ok(addr) => Ok((with_connector(r, ConnectorView { prover_account: a.prover_account@, eth_custodian_address: addr, ..c }), None)),
            Err(e) => Err(Error::InvalidAddress(e)),
        },
        _ => Ok((r, None)),
    }
}

/// What a kind whose effect the EVM computes does, given the EVM run.
pub open spec fn evm_kind_spec(r: RecordsView, k: TransactionKind, evm: Option<EvmRun>) -> Result<(RecordsView, Option<ExecResultView>), Error> {
    match k {
        TransactionKind::DeployErc20(a) => if r.erc20_map.contains_key(a.nep141@) {
            Err(Error::DeployErc20(crate::evm::DeployErc20Error::Erc20Exists))
        } else {
            match evm {
                Some(run) => match run.result {
                    EvmResult::DeployErc20(Ok(address)) => Ok((
                        RecordsView { erc20_map: r.erc20_map.insert(a.nep141@, address@), ..with_writes(r, run) },
                        Some(ExecResultView::DeployErc20(address@)),
                    )),
                    EvmResult::DeployErc20(Err(e)) => Err(Error::DeployErc20(e)),
                    _ => Err(missing_run()),
                },
                None => Err(missing_run()),
            }
        },
        TransactionKind::FtOnTransfer(_) => match evm {
            Some(run) => match run.result {
                EvmResult::Received => Ok((with_writes(r, run), None)),
                _ => Err(missing_run()),
            },
            None => Err(missing_run()),
        },
        _ => submit_spec(r, evm),
    }
}

/// The precompile flags that exist: exits to NEAR and to Ethereum.
pub const PRECOMPILE_FLAGS: u32 = 3;

/// The longest account id of the upstream chain.
pub const MAX_ACCOUNT_ID_LEN: usize = 64;

/// What an administrative kind does.
pub open spec fn admin_kind_spec(r: RecordsView, k: TransactionKind, env: EnvView) -> Result<(RecordsView, Option<ExecResultView>), Error> {
    let pred = env.predecessor;
    let cur = env.current;
    let st = r.engine_state.unwrap();
    match k {
        TransactionKind::NewConnector(a) => if r.connector is Some {
            Err(Error::ConnectorInit(InitContractError::AlreadyInitialized))
        } else {
            match address_spec(a.eth_custodian_address@) {
                Ok(addr) => Ok((RecordsView { connector: Some(new_connector_view(a.prover_account@, addr, cur)), ..r }, None)),
                Err(_) => Err(Error::ConnectorInit(InitContractError::InvalidCustodianAddress)),
            }
        },
        TransactionKind::NewEngine(a) => Ok((with_state(r, EngineStateView {
            chain_id: a.chain_id@,
            owner_id: a.owner_id@,
            bridge_prover_id: a.bridge_prover_id@,
            upgrade_delay_blocks: a.upgrade_delay_blocks,
            is_paused: false,
            key_manager: None,
        }), None)),
        TransactionKind::FactoryUpdate(code) => Ok((RecordsView { router_code: Some(code@), ..r }, None)),
        TransactionKind::FactoryUpdateAddressVersion(a) => Ok((RecordsView { address_versions: r.address_versions.insert(a.address@, a.version), ..r }, None)),
        TransactionKind::FactorySetWNearAddress(address) => Ok((RecordsView { wnear_address: Some(address@), ..r }, None)),
        TransactionKind::PausePrecompiles(a) => Ok((RecordsView { paused_precompiles: r.paused_precompiles | (a.paused_mask & PRECOMPILE_FLAGS), ..r }, None)),
        TransactionKind::ResumePrecompiles(a) => Ok((RecordsView { paused_precompiles: r.paused_precompiles & !(a.paused_mask & PRECOMPILE_FLAGS), ..r }, None)),
        TransactionKind::AddRelayerKey(a) => Ok((RecordsView { relayer_keys: r.relayer_keys.insert(a.public_key@), ..r }, None)),
        TransactionKind::RemoveRelayerKey(a) => if r.relayer_keys.contains(a.public_key@) {
            Ok((RecordsView { relayer_keys: r.relayer_keys.remove(a.public_key@), ..r }, None))
        } else {
            Err(Error::Engine(EngineError { kind: EngineErrorKind::FunctionCallKeyNotFound, gas_used: 0 }))
        },
        TransactionKind::RegisterRelayer(address) => Ok((RecordsView { relayers: r.relayers.insert(pred, address@), ..r }, None)),
        TransactionKind::SetOwner(a) => Ok((with_state(r, EngineStateView { owner_id: a.new_owner@, ..st }), None)),
        TransactionKind::SetUpgradeDelayBlocks(a) => Ok((with_state(r, EngineStateView { upgrade_delay_blocks: a.upgrade_delay_blocks, ..st }), None)),
        TransactionKind::PauseContract => Ok((with_state(r, EngineStateView { is_paused: true, ..st }), None)),
        TransactionKind::ResumeContract => Ok((with_state(r, EngineStateView { is_paused: false, ..st }), None)),
        TransactionKind::SetKeyManager(a) => Ok((with_state(r, EngineStateView { key_manager: match a.key_manager {
            None => None,
            Some(m) => Some(m@),
        }, ..st }), None)),
        TransactionKind::StartHashchain(a) => if a.block_height == u64::MAX {
            Err(Error::BlockchainHashchain(BlockchainHashchainError::BlockHeightIncorrect))
        } else {
            let start = HashchainView {
                chain_id: st.chain_id,
                account: cur,
                height: (a.block_height + 1) as nat,
                previous: a.block_hashchain@,
                accumulator: zero_word(),
            };
            let h = if env.block_height > start.height { moved(start, env.block_height as nat) } else { start };
            Ok((RecordsView { hashchain: Some(h), ..with_state(r, EngineStateView { is_paused: false, ..st }) }, None))
        },
        TransactionKind::FundXccSubAccount(a) => if 2 * a.target@.len() + 1 + cur.len() > MAX_ACCOUNT_ID_LEN {
            Err(Error::FundXccError(crate::errors::FundXccError::InvalidAccount))
        } else {
            Ok((r, None))
        },
        _ => Ok((r, None)),
    }
}

/// What a transaction kind does to the records, and what it returns, before the hashchain.
pub open spec fn handle_spec(r: RecordsView, k: TransactionKind, env: EnvView, evm: Option<EvmRun>) -> Result<(RecordsView, Option<ExecResultView>), Error> {
    if is_paused(r) && !pause_exempt(k) {
        Err(Error::Paused)
    } else if needs_engine_state(k) && r.engine_state is None {
        Err(Error::EngineState(EngineStateError::NotFound))
    } else if is_connector_kind(k, env) {
        match r.connector {
            None => Err(Error::ConnectorStorage(StorageReadError::KeyNotFound)),
            Some(c) => connector_kind_spec(r, c, k, env),
        }
    } else if is_evm_kind(k, env) {
        evm_kind_spec(r, k, evm)
    } else {
        admin_kind_spec(r, k, env)
    }
}

/// The spec of one kind's handler as a contract on its result and the records it leaves.
pub open spec fn handled(
    spec_result: Result<(RecordsView, Option<ExecResultView>), Error>,
    r: Result<Option<TransactionExecutionResult>, Error>,
    after: RecordsView,
) -> bool {
    match spec_result {
        Ok((rv, res)) => result_view(r) == Ok::<_, Error>(res) && after == rv,
        Err(e) => r == Err::<Option<TransactionExecutionResult>, _>(e),
    }
}

/// The frames that the handlers write fit: the caller's and the engine's account ids and
/// the kind's framed arguments.
pub open spec fn env_fits(env: EnvView) -> bool {
    env.predecessor.len() <= u32::MAX && env.current.len() <= u32::MAX
}

/// Runs a kind that acts on the connector record.
fn execute_connector_kind(records: &mut EngineRecords, kind: &TransactionKind, env: &Env) -> (r: Result<Option<TransactionExecutionResult>, Error>)
    requires
        old(records).wf(),
        old(records).connector is Some,
        is_connector_kind(*kind, env@),
        env_fits(env@),
        crate::encoding::kind_fits(*kind),
    ensures
        final(records).wf(),
        handled(connector_kind_spec(old(records)@, old(records)@.connector.unwrap(), *kind, env@), r, final(records)@),
{
    let pred = &env.predecessor_account_id;
    let cur = &env.current_account_id;
    let relayers = &records.relayers;
    let c = match &mut records.connector {
        Some(c) => c,
        None => {
            return Err(Error::ConnectorStorage(StorageReadError::KeyNotFound));
        },
    };
    match kind {
        TransactionKind::FtOnTransfer(a) => match c.ft_on_transfer(relayers, a) {
            Ok(()) => Ok(None),
            Err(e) => Err(Error::FtOnTransfer(e)),
        },
        TransactionKind::FtTransferCall(a) => match c.ft_transfer_call(pred, cur, a, env.prepaid_gas) {
            Ok(p) => Ok(Some(TransactionExecutionResult::Promise(p))),
            Err(e) => Err(Error::FtOnTransfer(e)),
        },
        TransactionKind::ResolveTransfer(a, pr) => match c.ft_resolve_transfer(a, pr) {
            Ok(()) => Ok(None),
            Err(e) => Err(Error::FtTransfer(e)),
        },
        TransactionKind::FtTransfer(a) => match c.ft_transfer(pred, a) {
            Ok(()) => Ok(None),
            Err(e) => Err(Error::FtTransfer(e)),
        },
        TransactionKind::Withdraw(a) => match c.withdraw_eth_from_near(cur, pred, a) {
            Ok(()) => Ok(None),
            Err(e) => Err(Error::FtWithdraw(e)),
        },
        TransactionKind::Deposit(raw) => match c.deposit(raw, cur, pred) {
            Ok(p) => Ok(Some(TransactionExecutionResult::Promise(p))),
            Err(e) => Err(Error::Deposit(e)),
        },
        TransactionKind::FinishDeposit(a) => match c.finish_deposit(pred, cur, a, env.prepaid_gas) {
            Ok(None) => Ok(None),
            Ok(Some(p)) => Ok(Some(TransactionExecutionResult::Promise(p))),
            Err(e) => Err(Error::FinishDeposit(e)),
        },
        TransactionKind::StorageDeposit(a) => {
            match &a.account_id {
                Some(x) => c.storage_deposit(x),
                None => c.storage_deposit(pred),
            }
            Ok(None)
        },
        TransactionKind::StorageUnregister(force) => match c.storage_unregister(pred, *force) {
            Ok(()) => Ok(None),
            Err(e) => Err(Error::FtStorageFunding(e)),
        },
        TransactionKind::StorageWithdraw(a) => match c.storage_withdraw(pred, a.amount) {
            Ok(()) => Ok(None),
            Err(e) => Err(Error::FtStorageFunding(e)),
        },
        TransactionKind::SetPausedFlags(a) => {
            c.set_paused_flags(a.paused_mask);
            Ok(None)
        },
        TransactionKind::SetConnectorData(a) => match c.set_contract_data(a) {
            Ok(()) => Ok(None),
            Err(e) => Err(Error::InvalidAddress(e)),
        },
        _ => Ok(None),
    }
}

/// Runs a kind whose effect the EVM computed.
fn execute_evm_kind(records: &mut EngineRecords, kind: &TransactionKind, evm: Option<EvmRun>) -> (r: Result<Option<TransactionExecutionResult>, Error>)
    requires
        old(records).wf(),
    ensures
        final(records).wf(),
        handled(evm_kind_spec(old(records)@, *kind, evm), r, final(records)@),
{
    match kind {
        TransactionKind::DeployErc20(a) => {
            if records.erc20_map.contains(a.nep141.as_slice()) {
                return Err(Error::DeployErc20(crate::evm::DeployErc20Error::Erc20Exists));
            }
            match evm {
                Some(run) => match run.result {
                    EvmResult::DeployErc20(Ok(address)) => {
                        write_evm_state(&mut records.evm, &run.writes);
                        records.erc20_map.insert(copy_bytes(a.nep141.as_slice()), copy_bytes(address.as_slice()));
                        Ok(Some(TransactionExecutionResult::DeployErc20(address)))
                    },
                    EvmResult::DeployErc20(Err(e)) => Err(Error::DeployErc20(e)),
                    _ => Err(Error::Engine(EngineError { kind: EngineErrorKind::EvmResultMissing, gas_used: 0 })),
                },
                None => Err(Error::Engine(EngineError { kind: EngineErrorKind::EvmResultMissing, gas_used: 0 })),
            }
        },
        TransactionKind::FtOnTransfer(_) => match evm {
            Some(run) => match run.result {
                EvmResult::Received => {
                    write_evm_state(&mut records.evm, &run.writes);
                    Ok(None)
                },
                _ => Err(Error::Engine(EngineError { kind: EngineErrorKind::EvmResultMissing, gas_used: 0 })),
            },
            None => Err(Error::Engine(EngineError { kind: EngineErrorKind::EvmResultMissing, gas_used: 0 })),
        },
        _ => run_submit(records, evm),
    }
}

/// The engine state with the given fields replaced.
fn set_engine_state(records: &mut EngineRecords, state: EngineState)
    ensures
        final(records)@ == with_state(old(records)@, state@),
        final(records).wf() == old(records).wf(),
{
    records.engine_state = Some(state);
}

/// Runs an administrative kind.
fn execute_admin_kind(records: &mut EngineRecords, kind: &TransactionKind, env: &Env) -> (r: Result<Option<TransactionExecutionResult>, Error>)
    requires
        old(records).wf(),
        needs_engine_state(*kind) ==> old(records).engine_state is Some,
    ensures
        final(records).wf(),
        handled(admin_kind_spec(old(records)@, *kind, env@), r, final(records)@),
{
    let ghost r0 = records@;
    match kind {
        TransactionKind::NewConnector(a) => {
            let c = match create_contract(&records.connector, &env.current_account_id, a) {
                Ok(c) => c,
                Err(e) => {
                    return Err(Error::ConnectorInit(e));
                },
            };
            records.connector = Some(c);
            Ok(None)
        },
        TransactionKind::NewEngine(a) => {
            set_engine_state(records, EngineState {
                chain_id: copy_bytes(a.chain_id.as_slice()),
                owner_id: copy_bytes(a.owner_id.as_slice()),
                bridge_prover_id: copy_bytes(a.bridge_prover_id.as_slice()),
                upgrade_delay_blocks: a.upgrade_delay_blocks,
                is_paused: false,
                key_manager: None,
            });
            Ok(None)
        },
        TransactionKind::FactoryUpdate(code) => {
            records.router_code = Some(copy_bytes(code.as_slice()));
            Ok(None)
        },
        TransactionKind::FactoryUpdateAddressVersion(a) => {
            records.address_versions.insert(copy_bytes(a.address.as_slice()), a.version);
            Ok(None)
        },
        TransactionKind::FactorySetWNearAddress(address) => {
            records.wnear_address = Some(copy_bytes(address.as_slice()));
            Ok(None)
        },
        TransactionKind::PausePrecompiles(a) => {
            records.paused_precompiles = records.paused_precompiles | (a.paused_mask & PRECOMPILE_FLAGS);
            Ok(None)
        },
        TransactionKind::ResumePrecompiles(a) => {
            records.paused_precompiles = records.paused_precompiles & !(a.paused_mask & PRECOMPILE_FLAGS);
            Ok(None)
        },
        TransactionKind::AddRelayerKey(a) => {
            records.relayer_keys.insert(copy_bytes(a.public_key.as_slice()), ());
            assert(records@.relayer_keys =~= r0.relayer_keys.insert(a.public_key@));
            Ok(None)
        },
        TransactionKind::RemoveRelayerKey(a) => {
            if !records.relayer_keys.contains(a.public_key.as_slice()) {
                return Err(Error::Engine(EngineError { kind: EngineErrorKind::FunctionCallKeyNotFound, gas_used: 0 }));
            }
            records.relayer_keys.remove(a.public_key.as_slice());
            assert(records@.relayer_keys =~= r0.relayer_keys.remove(a.public_key@));
            Ok(None)
        },
        TransactionKind::RegisterRelayer(address) => {
            records.relayers.insert(copy_bytes(env.predecessor_account_id.as_slice()), copy_bytes(address.as_slice()));
            Ok(None)
        },
        TransactionKind::SetOwner(a) => {
            let mut st = match &records.engine_state {
                Some(s) => s.copy(),
                None => {
                    return Err(Error::EngineState(EngineStateError::NotFound));
                },
            };
            st.owner_id = copy_bytes(a.new_owner.as_slice());
            set_engine_state(records, st);
            Ok(None)
        },
        TransactionKind::SetUpgradeDelayBlocks(a) => {
            let mut st = match &records.engine_state {
                Some(s) => s.copy(),
                None => {
                    return Err(Error::EngineState(EngineStateError::NotFound));
                },
            };
            st.upgrade_delay_blocks = a.upgrade_delay_blocks;
            set_engine_state(records, st);
            Ok(None)
        },
        TransactionKind::PauseContract | TransactionKind::ResumeContract => {
            let mut st = match &records.engine_state {
                Some(s) => s.copy(),
                None => {
                    return Err(Error::EngineState(EngineStateError::NotFound));
                },
            };
            st.is_paused = match kind {
                TransactionKind::PauseContract => true,
                _ => false,
            };
            set_engine_state(records, st);
            Ok(None)
        },
        TransactionKind::SetKeyManager(a) => {
            let mut st = match &records.engine_state {
                Some(s) => s.copy(),
                None => {
                    return Err(Error::EngineState(EngineStateError::NotFound));
                },
            };
            st.key_manager = crate::state::copy_opt(&a.key_manager);
            set_engine_state(records, st);
            Ok(None)
        },
        TransactionKind::StartHashchain(a) => {
            let mut st = match &records.engine_state {
                Some(s) => s.copy(),
                None => {
                    return Err(Error::EngineState(EngineStateError::NotFound));
                },
            };
            if a.block_height == u64::MAX {
                return Err(Error::BlockchainHashchain(BlockchainHashchainError::BlockHeightIncorrect));
            }
            let mut hashchain = BlockchainHashchain::new(
                copy_bytes(st.chain_id.as_slice()),
                copy_bytes(env.current_account_id.as_slice()),
                a.block_height + 1,
                copy_bytes(a.block_hashchain.as_slice()),
            );
            if env.block_height > hashchain.get_current_block_height() {
                if let Err(e) = hashchain.move_to_block(env.block_height) {
                    return Err(Error::BlockchainHashchain(e));
                }
            }
            st.is_paused = false;
            set_engine_state(records, st);
            records.hashchain = Some(hashchain);
            Ok(None)
        },
        TransactionKind::FundXccSubAccount(a) => {
            if a.target.len() > MAX_ACCOUNT_ID_LEN || env.current_account_id.len() > MAX_ACCOUNT_ID_LEN
                || 2 * a.target.len() + 1 + env.current_account_id.len() > MAX_ACCOUNT_ID_LEN {
                return Err(Error::FundXccError(crate::errors::FundXccError::InvalidAccount));
            }
            Ok(None)
        },
        _ => Ok(None),
    }
}

/// Whether a kind is exempt from the pause.
fn is_pause_exempt(kind: &TransactionKind) -> (r: bool)
    ensures
        r == pause_exempt(*kind),
{
    match kind {
        TransactionKind::StartHashchain(_) | TransactionKind::ResumeContract
        | TransactionKind::ResumePrecompiles(_) | TransactionKind::Unknown => true,
        _ => false,
    }
}

/// Whether a kind needs the engine state.
fn uses_engine_state(kind: &TransactionKind) -> (r: bool)
    ensures
        r == needs_engine_state(*kind),
{
    match kind {
        TransactionKind::Submit(_) | TransactionKind::SubmitWithArgs(_) | TransactionKind::Call(_)
        | TransactionKind::Deploy(_) | TransactionKind::DeployErc20(_)
        | TransactionKind::FtOnTransfer(_) | TransactionKind::RegisterRelayer(_)
        | TransactionKind::RefundOnError(Some(_)) | TransactionKind::SetOwner(_)
        | TransactionKind::SetUpgradeDelayBlocks(_) | TransactionKind::PauseContract
        | TransactionKind::ResumeContract | TransactionKind::SetKeyManager(_)
        | TransactionKind::StartHashchain(_) => true,
        _ => false,
    }
}

/// Runs one transaction kind against the records: the pause and the engine state are
/// checked first, then the kind's handler runs. A kind that fails leaves the records as
/// they were.
pub fn execute_kind(records: &mut EngineRecords, kind: &TransactionKind, env: &Env, evm: Option<EvmRun>) -> (r: Result<Option<TransactionExecutionResult>, Error>)
    requires
        old(records).wf(),
        env_fits(env@),
        crate::encoding::kind_fits(*kind),
    ensures
        final(records).wf(),
        handled(handle_spec(old(records)@, *kind, env@, evm), r, final(records)@),
        r is Err ==> final(records)@ == old(records)@,
{
    let backup = records.copy();
    let r = dispatch_kind(records, kind, env, evm);
    if r.is_err() {
        *records = backup;
    }
    r
}

/// Checks the pause and the engine state, then runs the kind's handler.
fn dispatch_kind(records: &mut EngineRecords, kind: &TransactionKind, env: &Env, evm: Option<EvmRun>) -> (r: Result<Option<TransactionExecutionResult>, Error>)
    requires
        old(records).wf(),
        env_fits(env@),
        crate::encoding::kind_fits(*kind),
    ensures
        final(records).wf(),
        handled(handle_spec(old(records)@, *kind, env@, evm), r, final(records)@),
{
    let paused = match &records.engine_state {
        Some(s) => s.is_paused,
        None => false,
    };
    if paused && !is_pause_exempt(kind) {
        return Err(Error::Paused);
    }
    if uses_engine_state(kind) && records.engine_state.is_none() {
        return Err(Error::EngineState(EngineStateError::NotFound));
    }
    let own_call = crate::keyed::bytes_eq(env.predecessor_account_id.as_slice(), env.current_account_id.as_slice());
    let connector_kind = match kind {
        TransactionKind::FtOnTransfer(_) => own_call,
        TransactionKind::FtTransferCall(_) | TransactionKind::ResolveTransfer(..)
        | TransactionKind::FtTransfer(_) | TransactionKind::Withdraw(_) | TransactionKind::Deposit(_)
        | TransactionKind::FinishDeposit(_) | TransactionKind::StorageDeposit(_)
        | TransactionKind::StorageUnregister(_) | TransactionKind::StorageWithdraw(_)
        | TransactionKind::SetPausedFlags(_) | TransactionKind::SetConnectorData(_) => true,
        _ => false,
    };
    let evm_kind = match kind {
        TransactionKind::FtOnTransfer(_) => !own_call,
        TransactionKind::Submit(_) | TransactionKind::SubmitWithArgs(_) | TransactionKind::Call(_)
        | TransactionKind::Deploy(_) | TransactionKind::DeployErc20(_)
        | TransactionKind::RefundOnError(Some(_)) => true,
        _ => false,
    };
    if connector_kind {
        if records.connector.is_none() {
            return Err(Error::ConnectorStorage(StorageReadError::KeyNotFound));
        }
        execute_connector_kind(records, kind, env)
    } else if evm_kind {
        execute_evm_kind(records, kind, evm)
    } else {
        execute_admin_kind(records, kind, env)
    }
}

/// The output and log bloom that the hashchain commits to for a transaction's result: nothing
/// and an empty bloom, the framed address of a new mirror, or the encoded EVM result and the
/// bloom of its logs. An EVM refusal is an error here.
pub open spec fn output_and_bloom_spec(res: Option<ExecResultView>) -> Result<(Seq<u8>, Seq<u8>), Error> {
    match res {
        None => Ok((Seq::empty(), empty_bloom())),
        Some(ExecResultView::Promise(_)) => Ok((Seq::empty(), empty_bloom())),
        Some(ExecResultView::DeployErc20(a)) => if a.len() <= u32::MAX {
            Ok((framed(a), empty_bloom()))
        } else {
            Err(Error::IO)
        },
        Some(ExecResultView::Submit(Err(e))) => Err(Error::Engine(e)),
        Some(ExecResultView::Submit(Ok(sr))) => if submit_result_fits(sr) {
            Ok((submit_result_encoding(sr), logs_bloom(sr.logs@)))
        } else {
            Err(Error::IO)
        },
    }
}

/// The hashchain after a transaction of kind `k` at block `height` returned `res`: none
/// while no hashchain is started, else the transaction is added to it.
pub open spec fn hashchain_spec(h: Option<HashchainView>, height: u64, k: TransactionKind, res: Option<ExecResultView>) -> Result<Option<HashchainView>, Error> {
    match h {
        None => Ok(None),
        Some(hv) => match output_and_bloom_spec(res) {
            Err(e) => Err(e),
            Ok((output, bloom)) => if (height as nat) < hv.height {
                Err(Error::BlockchainHashchain(BlockchainHashchainError::BlockHeightInThePast))
            } else {
                Ok(Some(added(hv, height as nat, tx_digest(name_bytes(method_name_of(k)), kind_input(k), output, bloom))))
            },
        },
    }
}

pub open spec fn option_result_view(res: Option<TransactionExecutionResult>) -> Option<ExecResultView> {
    match res {
        None => None,
        Some(x) => Some(x@),
    }
}

/// The output and log bloom that the hashchain commits to for a transaction's result.
fn get_output_and_log_bloom(result: &Option<TransactionExecutionResult>) -> (r: Result<(Vec<u8>, Bloom), Error>)
    ensures
        match output_and_bloom_spec(option_result_view(*result)) {
            Ok((o, b)) => r is Ok && r.unwrap().0@ == o && r.unwrap().1.0@ == b && r.unwrap().1.wf(),
            Err(e) => r == Err::<(Vec<u8>, Bloom), _>(e),
        },
{
    match result {
        None => Ok((Vec::new(), zero_bloom())),
        Some(TransactionExecutionResult::Promise(_)) => Ok((Vec::new(), zero_bloom())),
        Some(TransactionExecutionResult::DeployErc20(address)) => {
            if !frame_fits(address) {
                return Err(Error::IO);
            }
            Ok((framed_vec(address.as_slice()), zero_bloom()))
        },
        Some(TransactionExecutionResult::Submit(Err(e))) => Err(Error::Engine(*e)),
        Some(TransactionExecutionResult::Submit(Ok(submit_result))) => match encode_submit_result(submit_result) {
            None => Err(Error::IO),
            Some(output) => Ok((output, get_logs_bloom(&submit_result.logs))),
        },
    }
}

/// Adds a transaction that succeeded to the hashchain, if one is started.
fn update_hashchain(
    records: &mut EngineRecords,
    block_height: u64,
    transaction: &TransactionKind,
    result: &Option<TransactionExecutionResult>,
) -> (r: Result<(), Error>)
    requires
        old(records).wf(),
        kind_fits(*transaction),
    ensures
        final(records).wf(),
        match hashchain_spec(old(records)@.hashchain, block_height, *transaction, option_result_view(*result)) {
            Ok(None) => r is Ok && final(records)@ == old(records)@,
            Ok(Some(h)) => r is Ok && final(records)@ == (RecordsView { hashchain: Some(h), ..old(records)@ }),
            Err(e) => r == Err::<(), _>(e),
        },
{
    let hashchain = match &mut records.hashchain {
        None => {
            return Ok(());
        },
        Some(h) => h,
    };
    let input = match get_input(transaction) {
        None => {
            return Err(Error::IO);
        },
        Some(i) => i,
    };
    let (output, log_bloom) = get_output_and_log_bloom(result)?;
    let name = method_name(transaction);
    match hashchain.add_block_tx(block_height, name.as_bytes(), input.as_slice(), output.as_slice(), log_bloom.0.as_slice()) {
        Ok(()) => Ok(()),
        Err(e) => Err(Error::BlockchainHashchain(e)),
    }
}

/// The EVM address of an upstream account: the address itself when the account id is `0x`
/// and 40 hex digits, else the last 20 bytes of the Keccak-256 digest of the account id.
pub open spec fn evm_address_of(account: Seq<u8>) -> Seq<u8> {
    let digits = account.subrange(2, account.len() as int);
    if account.len() == 42 && account[0] == 48 && account[1] == 120 && crate::crypto::is_hex(digits) {
        crate::crypto::hex_bytes(digits)
    } else {
        keccak_of(account).subrange(12, 32)
    }
}

/// The EVM address of an upstream account, such as a relayer's.
pub fn near_account_to_evm_address(account: &[u8]) -> (r: Vec<u8>)
    ensures
        r@ == evm_address_of(account@),
{
    if account.len() == 42 && account[0] == 48u8 && account[1] == 120u8 {
        let digits = copy_bytes(&account[2..42]);
        assert(digits@ =~= account@.subrange(2, account@.len() as int));
        match crate::crypto::hex_decode(digits.as_slice()) {
            Some(address) => {
                return address;
            },
            None => {},
        }
    }
    let digest = keccak256(account);
    let address = copy_bytes(&digest.as_slice()[12..32]);
    assert(address@ =~= keccak_of(account@).subrange(12, 32));
    address
}

/// The hash under which a transaction is known: the Keccak-256 digest of the signed EVM
/// transaction for the two submit kinds, else the upstream receipt id.
pub open spec fn tx_hash_spec(msg: TransactionMessage) -> Seq<u8> {
    match msg.transaction {
        TransactionKind::Submit(tx) => keccak_of(tx@),
        TransactionKind::SubmitWithArgs(a) => keccak_of(a.tx_data@),
        _ => msg.near_receipt_id@,
    }
}

/// Whether the values that a transaction frames fit their four-byte frames.
pub open spec fn message_fits(msg: TransactionMessage, engine_account: Seq<u8>) -> bool {
    kind_fits(msg.transaction) && msg.caller@.len() <= u32::MAX && engine_account.len() <= u32::MAX
}

/// The environment a transaction runs in, as the handlers read it.
pub open spec fn env_view_of(msg: TransactionMessage, height: u64, engine_account: Seq<u8>) -> EnvView {
    EnvView {
        predecessor: msg.caller@,
        current: engine_account,
        block_height: height,
        prepaid_gas: DEFAULT_PREPAID_GAS,
    }
}

/// What replaying a transaction does: the records it leaves and its result. A failure
/// leaves the records as they were; success is also added to the hashchain (but for the
/// ignored kind), and a failure to add it turns into the transaction's failure.
pub open spec fn execute_spec(
    r: RecordsView,
    msg: TransactionMessage,
    height: u64,
    engine_account: Seq<u8>,
    evm: Option<EvmRun>,
) -> (RecordsView, Result<Option<ExecResultView>, Error>) {
    if !message_fits(msg, engine_account) {
        (r, Err(Error::IO))
    } else {
        match handle_spec(r, msg.transaction, env_view_of(msg, height, engine_account), evm) {
            Err(e) => (r, Err(e)),
            Ok((r1, res)) => if msg.transaction is Unknown {
                (r1, Ok(res))
            } else {
                match hashchain_spec(r1.hashchain, height, msg.transaction, res) {
                    Err(e) => (r, Err(e)),
                    Ok(None) => (r1, Ok(res)),
                    Ok(Some(h)) => (RecordsView { hashchain: Some(h), ..r1 }, Ok(res)),
                }
            },
        }
    }
}

/// The environment of a transaction: its signer and caller, the engine's account, the
/// block's height, time and random seed, the attached deposit and the default gas.
pub fn build_env(msg: &TransactionMessage, block_height: u64, block_metadata: &BlockMetadata, engine_account_id: &Vec<u8>) -> (r: Env)
    ensures
        r@ == env_view_of(*msg, block_height, engine_account_id@),
        r.signer_account_id@ == msg.signer@,
        r.block_timestamp == block_metadata.timestamp,
        r.attached_deposit == msg.attached_near,
        r.random_seed@ == block_metadata.random_seed@,
{
    Env {
        signer_account_id: copy_bytes(msg.signer.as_slice()),
        predecessor_account_id: copy_bytes(msg.caller.as_slice()),
        current_account_id: copy_bytes(engine_account_id.as_slice()),
        block_height,
        block_timestamp: block_metadata.timestamp,
        attached_deposit: msg.attached_near,
        random_seed: copy_bytes(block_metadata.random_seed.as_slice()),
        prepaid_gas: DEFAULT_PREPAID_GAS,
    }
}

/// The hash under which a transaction is known.
pub fn transaction_hash(msg: &TransactionMessage) -> (r: Vec<u8>)
    ensures
        r@ == tx_hash_spec(*msg),
{
    match &msg.transaction {
        TransactionKind::Submit(tx) => keccak256(tx.as_slice()),
        TransactionKind::SubmitWithArgs(a) => keccak256(a.tx_data.as_slice()),
        _ => copy_bytes(msg.near_receipt_id.as_slice()),
    }
}

/// Replays one transaction against a copy of the records, with the EVM's part taken from
/// `evm`. Returns the transaction's hash, the records as the transaction leaves them (as they
/// were, on failure), and its result.
pub fn execute_transaction(
    msg: &TransactionMessage,
    block_height: u64,
    block_metadata: &BlockMetadata,
    engine_account_id: &Vec<u8>,
    records: &EngineRecords,
    evm: Option<EvmRun>,
) -> (r: (Vec<u8>, EngineRecords, Result<Option<TransactionExecutionResult>, Error>))
    requires
        records.wf(),
    ensures
        r.0@ == tx_hash_spec(*msg),
        r.1.wf(),
        (r.1@, result_view(r.2)) == execute_spec(records@, *msg, block_height, engine_account_id@, evm),
{
    let tx_hash = transaction_hash(msg);
    if get_input(&msg.transaction).is_none() || !frame_fits(&msg.caller) || !frame_fits(engine_account_id) {
        return (tx_hash, records.copy(), Err(Error::IO));
    }
    let env = build_env(msg, block_height, block_metadata, engine_account_id);
    let mut view = records.copy();
    let result = match execute_kind(&mut view, &msg.transaction, &env, evm) {
        Err(e) => {
            return (tx_hash, records.copy(), Err(e));
        },
        Ok(res) => res,
    };
    if let TransactionKind::Unknown = msg.transaction {
        return (tx_hash, view, Ok(result));
    }
    match update_hashchain(&mut view, block_height, &msg.transaction, &result) {
        Err(e) => (tx_hash, records.copy(), Err(e)),
        Ok(()) => (tx_hash, view, Ok(result)),
    }
}

} // verus!
