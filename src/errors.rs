//! Every way a transaction can fail, gathered into one error type.
use vstd::prelude::*;
use crate::evm::{DeployErc20Error, EngineError};
use crate::hashchain::BlockchainHashchainError;
use crate::state::EngineStateError;

verus! {

/// Why connector records could not be read.
#[derive(Debug, Clone, Copy, PartialEq, Eq, Structural)]
pub enum StorageReadError {
    KeyNotFound,
    BorshDeserialize,
}

/// Why a transfer notification message could not be parsed.
#[derive(Debug, Clone, Copy, PartialEq, Eq, Structural)]
pub enum ParseOnTransferMessageError {
    /// The message is not two parts around one colon.
    TooManyParts,
    /// The second part is not hex.
    InvalidHexData,
    /// The decoded part is neither an address nor a fee and an address.
    WrongMessageFormat,
    /// The relayer part is not an account id.
    InvalidAccount,
    /// The fee does not fit 128 bits.
    OverflowNumber,
}

/// Why a fungible-token transfer failed.
#[derive(Debug, Clone, Copy, PartialEq, Eq, Structural)]
pub enum TransferError {
    TotalSupplyUnderflow,
    TotalSupplyOverflow,
    InsufficientAmount,
    BalanceOverflow,
    ZeroAmount,
    SelfTransfer,
    AccountNotRegistered,
}

/// Why a fungible-token withdrawal failed.
#[derive(Debug, Clone, Copy, PartialEq, Eq, Structural)]
pub enum FtWithdrawError {
    AccountNotRegistered,
    InsufficientFunds,
    TotalSupplyUnderflow,
}

/// Why a storage registration operation failed.
#[derive(Debug, Clone, Copy, PartialEq, Eq, Structural)]
pub enum StorageFundingError {
    NotRegistered,
    NoAvailableBalance,
    UnRegisterPositiveBalance,
}

/// Why a transfer call or a transfer notification failed.
#[derive(Debug, Clone, Copy, PartialEq, Eq, Structural)]
pub enum FtTransferCallError {
    MessageParseFailed(ParseOnTransferMessageError),
    InsufficientAmountForFee,
    Transfer(TransferError),
}

/// Why a deposit could not start.
#[derive(Debug, Clone, Copy, PartialEq, Eq, Structural)]
pub enum DepositError {
    Paused,
    ProofParseFailed,
    EventParseFailed,
    CustodianAddressMismatch,
    InsufficientAmountForFee,
}

/// Why a deposit could not be completed.
#[derive(Debug, Clone, Copy, PartialEq, Eq, Structural)]
pub enum FinishDepositError {
    TransferCall(FtTransferCallError),
    ProofUsed,
}

/// Why a withdrawal failed.
#[derive(Debug, Clone, Copy, PartialEq, Eq, Structural)]
pub enum WithdrawError {
    Paused,
    FT(FtWithdrawError),
}

/// Why the connector could not be initialised.
#[derive(Debug, Clone, Copy, PartialEq, Eq, Structural)]
pub enum InitContractError {
    AlreadyInitialized,
    InvalidCustodianAddress,
}

/// A deposit proof that was already used.
#[derive(Debug, Clone, Copy, PartialEq, Eq, Structural)]
pub struct ProofUsed;

/// A 20-byte address that could not be decoded from hex text.
#[derive(Debug, Clone, Copy, PartialEq, Eq, Structural)]
pub enum AddressError {
    FailedDecodeHex,
    IncorrectLength,
}

/// Why a cross-contract-call sub-account could not be funded.
#[derive(Debug, Clone, Copy, PartialEq, Eq, Structural)]
pub enum FundXccError {
    /// The sub-account id (the target's hex address, a dot, the engine's account) would be
    /// longer than an account id may be.
    InvalidAccount,
}

/// Why a transaction failed.
#[derive(Debug, Clone, Copy, PartialEq, Eq, Structural)]
pub enum Error {
    EngineState(EngineStateError),
    Engine(EngineError),
    DeployErc20(DeployErc20Error),
    FtOnTransfer(FtTransferCallError),
    Deposit(DepositError),
    FinishDeposit(FinishDepositError),
    FtTransfer(TransferError),
    FtWithdraw(WithdrawError),
    FtStorageFunding(StorageFundingError),
    InvalidAddress(AddressError),
    ConnectorInit(InitContractError),
    ConnectorStorage(StorageReadError),
    FundXccError(FundXccError),
    BlockchainHashchain(BlockchainHashchainError),
    /// A value too long for its length frame.
    IO,
    /// The engine is paused.
    Paused,
}

} // verus!
