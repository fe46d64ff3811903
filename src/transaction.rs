//! The messages that the replay consumes, the transaction kinds they carry, and the byte
//! encoding of each kind's arguments that the hashchain commits to.
use vstd::prelude::*;
use crate::codec::{framed, framed_option, le_bytes, put_bytes, put_framed, put_le};

verus! {

/// The metadata of a block: its timestamp in nanoseconds and its 32-byte random seed.
#[derive(Debug, Clone)]
pub struct BlockMetadata {
    pub timestamp: u64,
    pub random_seed: Vec<u8>,
}

/// Bytes that stand for themselves when encoded: written as they are, and read by taking all
/// that remains.
#[derive(Debug, Clone, PartialEq, Eq)]
pub struct Raw(pub Vec<u8>);

impl Raw {
    /// The encoding: the bytes as they are.
    pub fn serialize(&self) -> (r: Vec<u8>)
        ensures
            r@ == self.0@,
    {
        crate::codec::copy_bytes(self.0.as_slice())
    }

    /// The decoding: all the bytes that remain.
    pub fn deserialize(bytes: &[u8]) -> (r: Raw)
        ensures
            r.0@ == bytes@,
    {
        Raw(crate::codec::copy_bytes(bytes))
    }
}

/// A new block of the upstream chain.
#[derive(Debug, Clone)]
pub struct BlockMessage {
    pub height: u64,
    pub hash: Vec<u8>,
    pub metadata: BlockMetadata,
}

/// The outcome of an earlier cross-contract call, as the upstream chain reported it.
#[derive(Debug, Clone)]
pub enum PromiseResult {
    NotReady,
    Successful(Vec<u8>),
    Failed,
}

/// Arguments of a signed EVM transaction with an optional gas price cap and gas limit.
#[derive(Debug, Clone)]
pub struct SubmitArgs {
    pub tx_data: Vec<u8>,
    pub max_gas_price: Option<u128>,
    pub gas_limit: Option<u64>,
}

/// Arguments of a direct EVM call: the 20-byte contract, the 32-byte value and the input.
#[derive(Debug, Clone)]
pub struct CallArgs {
    pub contract: Vec<u8>,
    pub value: Vec<u8>,
    pub input: Vec<u8>,
}

/// Arguments of the deployment of an ERC-20 mirror for a NEP-141 token.
#[derive(Debug, Clone)]
pub struct DeployErc20TokenArgs {
    pub nep141: Vec<u8>,
}

/// Arguments of a NEP-141 transfer notification.
#[derive(Debug, Clone)]
pub struct NEP141FtOnTransferArgs {
    pub sender_id: Vec<u8>,
    pub amount: u128,
    pub msg: Vec<u8>,
}

/// Arguments of a transfer that notifies the receiver.
#[derive(Debug, Clone)]
pub struct TransferCallCallArgs {
    pub receiver_id: Vec<u8>,
    pub amount: u128,
    pub memo: Option<Vec<u8>>,
    pub msg: Vec<u8>,
}

/// Arguments of the callback that settles a transfer call.
#[derive(Debug, Clone)]
pub struct ResolveTransferCallArgs {
    pub sender_id: Vec<u8>,
    pub amount: u128,
    pub receiver_id: Vec<u8>,
}

/// Arguments of a plain transfer.
#[derive(Debug, Clone)]
pub struct TransferCallArgs {
    pub receiver_id: Vec<u8>,
    pub amount: u128,
    pub memo: Option<Vec<u8>>,
}

/// Arguments of a withdrawal to a 20-byte address of the external chain.
#[derive(Debug, Clone)]
pub struct WithdrawCallArgs {
    pub recipient_address: Vec<u8>,
    pub amount: u128,
}

/// Arguments of the callback that completes a deposit.
#[derive(Debug, Clone)]
pub struct FinishDepositCallArgs {
    pub new_owner_id: Vec<u8>,
    pub amount: u128,
    pub proof_key: Vec<u8>,
    pub relayer_id: Vec<u8>,
    pub fee: u128,
    /// The transfer call to make once the tokens are minted, if any.
    pub msg: Option<TransferCallCallArgs>,
}

/// Arguments of a storage deposit.
#[derive(Debug, Clone)]
pub struct StorageDepositCallArgs {
    pub account_id: Option<Vec<u8>>,
    pub registration_only: Option<bool>,
}

/// Arguments of a storage withdrawal.
#[derive(Debug, Clone)]
pub struct StorageWithdrawCallArgs {
    pub amount: Option<u128>,
}

/// Arguments that set the connector's paused flags.
#[derive(Debug, Clone)]
pub struct PauseEthConnectorCallArgs {
    pub paused_mask: u8,
}

/// Arguments of a refund after a failed exit call.
#[derive(Debug, Clone)]
pub struct RefundCallArgs {
    pub recipient_address: Vec<u8>,
    pub erc20_address: Option<Vec<u8>>,
    pub amount: Vec<u8>,
}

/// Arguments that set the connector data: the prover account and the custodian address as
/// hex text.
#[derive(Debug, Clone)]
pub struct SetContractDataCallArgs {
    pub prover_account: Vec<u8>,
    pub eth_custodian_address: Vec<u8>,
}

/// Arguments that initialise the engine state.
#[derive(Debug, Clone)]
pub struct NewCallArgs {
    pub chain_id: Vec<u8>,
    pub owner_id: Vec<u8>,
    pub bridge_prover_id: Vec<u8>,
    pub upgrade_delay_blocks: u64,
}

/// Arguments that record the router code version of one address.
#[derive(Debug, Clone)]
pub struct AddressVersionUpdateArgs {
    pub address: Vec<u8>,
    pub version: u32,
}

/// Arguments of the funding of a cross-contract-call sub-account.
#[derive(Debug, Clone)]
pub struct FundXccArgs {
    pub target: Vec<u8>,
    pub wnear_account_id: Option<Vec<u8>>,
}

/// Arguments that pause or resume precompiles.
#[derive(Debug, Clone)]
pub struct PausePrecompilesCallArgs {
    pub paused_mask: u32,
}

/// Arguments that set the owner.
#[derive(Debug, Clone)]
pub struct SetOwnerArgs {
    pub new_owner: Vec<u8>,
}

/// Arguments that set the upgrade delay.
#[derive(Debug, Clone)]
pub struct SetUpgradeDelayBlocksArgs {
    pub upgrade_delay_blocks: u64,
}

/// Arguments that set or clear the key manager.
#[derive(Debug, Clone)]
pub struct RelayerKeyManagerArgs {
    pub key_manager: Option<Vec<u8>>,
}

/// Arguments naming a relayer function-call key.
#[derive(Debug, Clone)]
pub struct RelayerKeyArgs {
    pub public_key: Vec<u8>,
}

/// Arguments that start the hashchain from a known block and hashchain value.
#[derive(Debug, Clone)]
pub struct StartHashchainArgs {
    pub block_height: u64,
    pub block_hashchain: Vec<u8>,
}

/// Every kind of transaction the engine replays.
#[derive(Debug, Clone)]
pub enum TransactionKind {
    Submit(Vec<u8>),
    SubmitWithArgs(SubmitArgs),
    Call(CallArgs),
    Deploy(Vec<u8>),
    DeployErc20(DeployErc20TokenArgs),
    FtOnTransfer(NEP141FtOnTransferArgs),
    Deposit(Vec<u8>),
    FtTransferCall(TransferCallCallArgs),
    FinishDeposit(FinishDepositCallArgs),
    ResolveTransfer(ResolveTransferCallArgs, PromiseResult),
    FtTransfer(TransferCallArgs),
    Withdraw(WithdrawCallArgs),
    StorageDeposit(StorageDepositCallArgs),
    StorageUnregister(Option<bool>),
    StorageWithdraw(StorageWithdrawCallArgs),
    SetPausedFlags(PauseEthConnectorCallArgs),
    RegisterRelayer(Vec<u8>),
    RefundOnError(Option<RefundCallArgs>),
    SetConnectorData(SetContractDataCallArgs),
    NewConnector(SetContractDataCallArgs),
    NewEngine(NewCallArgs),
    FactoryUpdate(Vec<u8>),
    FactoryUpdateAddressVersion(AddressVersionUpdateArgs),
    FactorySetWNearAddress(Vec<u8>),
    FundXccSubAccount(FundXccArgs),
    PausePrecompiles(PausePrecompilesCallArgs),
    ResumePrecompiles(PausePrecompilesCallArgs),
    SetOwner(SetOwnerArgs),
    SetUpgradeDelayBlocks(SetUpgradeDelayBlocksArgs),
    PauseContract,
    ResumeContract,
    SetKeyManager(RelayerKeyManagerArgs),
    AddRelayerKey(RelayerKeyArgs),
    RemoveRelayerKey(RelayerKeyArgs),
    StartHashchain(StartHashchainArgs),
    Unknown,
}

/// A transaction of the upstream chain, as included in a block.
#[derive(Debug, Clone)]
pub struct TransactionMessage {
    pub block_hash: Vec<u8>,
    pub near_receipt_id: Vec<u8>,
    pub position: u16,
    pub succeeded: bool,
    pub signer: Vec<u8>,
    pub caller: Vec<u8>,
    pub attached_near: u128,
    pub transaction: TransactionKind,
    pub promise_data: Vec<Option<Vec<u8>>>,
}

/// One message of the upstream stream.
#[derive(Debug, Clone)]
pub enum Message {
    Block(BlockMessage),
    Transaction(TransactionMessage),
}

} // verus!
