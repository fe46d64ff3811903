//! What the EVM façade hands back: the result of running a signed transaction, a call or a
//! deployment, and the raw state writes that the run made.
use vstd::prelude::*;

verus! {

/// One EVM log: the emitting address (20 bytes), its topics (32 bytes each) and its data.
#[derive(Debug, Clone)]
pub struct ResultLog {
    pub address: Vec<u8>,
    pub topics: Vec<Vec<u8>>,
    pub data: Vec<u8>,
}

/// How an EVM execution ended.
#[derive(Debug, Clone)]
pub enum TransactionStatus {
    Succeed(Vec<u8>),
    Revert(Vec<u8>),
    OutOfGas,
    OutOfFund,
    OutOfOffset,
    CallTooDeep,
}

/// The result of an EVM execution that ran to an end (successful or not).
#[derive(Debug, Clone)]
pub struct SubmitResult {
    pub version: u8,
    pub status: TransactionStatus,
    pub gas_used: u64,
    pub logs: Vec<ResultLog>,
}

/// Why the EVM façade refused to run a transaction at all.
#[derive(Debug, Clone, Copy, PartialEq, Eq, Structural)]
pub enum EngineErrorKind {
    IncorrectNonce,
    InvalidChainId,
    InvalidSignature,
    IntrinsicGasNotMet,
    MaxPriorityGasFeeTooLarge,
    GasPayment,
    GasOverflow,
    EvmFatal,
    /// No EVM run was supplied for a transaction that needs one.
    EvmResultMissing,
    /// The relayer function-call key to remove does not exist.
    FunctionCallKeyNotFound,
}

/// A refusal of the EVM façade, with the gas it consumed.
#[derive(Debug, Clone, Copy, PartialEq, Eq, Structural)]
pub struct EngineError {
    pub kind: EngineErrorKind,
    pub gas_used: u64,
}

/// Why an ERC-20 mirror could not be deployed.
#[derive(Debug, Clone, Copy, PartialEq, Eq, Structural)]
pub enum DeployErc20Error {
    /// The NEP-141 token already has a mirror.
    Erc20Exists,
    /// The EVM deployment itself failed.
    Failed,
}

/// One raw write of an EVM run: a key set to a value, or deleted.
#[derive(Debug, Clone)]
pub struct KvWrite {
    pub key: Vec<u8>,
    pub value: Option<Vec<u8>>,
}

/// What the EVM façade returned for a transaction.
#[derive(Debug)]
pub enum EvmResult {
    /// A signed transaction, call, deployment or refund.
    Submit(Result<SubmitResult, EngineError>),
    /// The deployment of an ERC-20 mirror, with its 20-byte address.
    DeployErc20(Result<Vec<u8>, DeployErc20Error>),
    /// An ERC-20 mirror was credited; there is no result to report.
    Received,
}

/// An EVM run: its result and the raw state writes it made, in order.
#[derive(Debug)]
pub struct EvmRun {
    pub result: EvmResult,
    pub writes: Vec<KvWrite>,
}

} // verus!
