//! The bytes that the hashchain commits to for each transaction: the method name of its
//! kind, its input (the encoded arguments) and its output (the encoded EVM result).
use vstd::prelude::*;
use crate::codec::{
    bool_option, copy_bytes, fits_frame, frame_fits, framed, framed_option, framed_vec, le_bytes,
    le_option, option_bytes, option_fits_frame, option_frame_fits, put_bool_option, put_bytes,
    put_framed, put_framed_option, put_le, put_le_option,
};
use crate::evm::{ResultLog, SubmitResult, TransactionStatus};
use crate::transaction::{SetContractDataCallArgs, TransactionKind, TransferCallCallArgs};

verus! {

/// Whether every byte string of the kind's arguments that is framed fits the frame.
pub open spec fn kind_fits(k: TransactionKind) -> bool {
    match k {
        TransactionKind::SubmitWithArgs(a) => fits_frame(a.tx_data@),
        TransactionKind::Call(a) => fits_frame(a.input@),
        TransactionKind::DeployErc20(a) => fits_frame(a.nep141@),
        TransactionKind::FtOnTransfer(a) => fits_frame(a.sender_id@) && fits_frame(a.msg@),
        TransactionKind::FtTransferCall(a) => transfer_call_fits(a),
        TransactionKind::FinishDeposit(a) => fits_frame(a.new_owner_id@) && fits_frame(a.proof_key@)
            && fits_frame(a.relayer_id@) && match a.msg {
            None => true,
            Some(m) => transfer_call_fits(m) && fits_frame(transfer_call_input(m)),
        },
        TransactionKind::ResolveTransfer(a, _) => fits_frame(a.sender_id@) && fits_frame(
            a.receiver_id@,
        ),
        TransactionKind::FtTransfer(a) => fits_frame(a.receiver_id@) && option_fits_frame(a.memo),
        TransactionKind::StorageDeposit(a) => option_fits_frame(a.account_id),
        TransactionKind::SetConnectorData(a) => fits_frame(a.prover_account@) && fits_frame(
            a.eth_custodian_address@,
        ),
        TransactionKind::NewConnector(a) => fits_frame(a.prover_account@) && fits_frame(
            a.eth_custodian_address@,
        ),
        TransactionKind::NewEngine(a) => fits_frame(a.owner_id@) && fits_frame(a.bridge_prover_id@),
        TransactionKind::FundXccSubAccount(a) => option_fits_frame(a.wnear_account_id),
        TransactionKind::SetOwner(a) => fits_frame(a.new_owner@),
        TransactionKind::SetKeyManager(a) => option_fits_frame(a.key_manager),
        TransactionKind::AddRelayerKey(a) => fits_frame(a.public_key@),
        TransactionKind::RemoveRelayerKey(a) => fits_frame(a.public_key@),
        _ => true,
    }
}

/// Whether the framed parts of transfer-call arguments fit their frames.
pub open spec fn transfer_call_fits(a: TransferCallCallArgs) -> bool {
    fits_frame(a.receiver_id@) && option_fits_frame(a.memo) && fits_frame(a.msg@)
}

/// The encoded arguments of a transfer call.
pub open spec fn transfer_call_input(a: TransferCallCallArgs) -> Seq<u8> {
    framed(a.receiver_id@) + le_bytes(a.amount as nat, 16) + framed_option(option_bytes(a.memo))
        + framed(a.msg@)
}

/// The encoded arguments of a connector-data update.
pub open spec fn contract_data_input(a: SetContractDataCallArgs) -> Seq<u8> {
    framed(a.prover_account@) + framed(a.eth_custodian_address@)
}

/// The input that the hashchain commits to for a transaction kind: raw bytes for raw
/// payloads, else the arguments field by field (fixed-width values as they are, integers in
/// little-endian order, variable-length strings framed, options behind a tag byte).
pub open spec fn kind_input(k: TransactionKind) -> Seq<u8> {
    match k {
        TransactionKind::Submit(tx) => tx@,
        TransactionKind::SubmitWithArgs(a) => framed(a.tx_data@) + le_option(a.max_gas_price, 16)
            + le_option(
            match a.gas_limit {
                None => None,
                Some(g) => Some(g as u128),
            },
            8,
        ),
        TransactionKind::Call(a) => a.contract@ + a.value@ + framed(a.input@),
        TransactionKind::Deploy(code) => code@,
        TransactionKind::DeployErc20(a) => framed(a.nep141@),
        TransactionKind::FtOnTransfer(a) => framed(a.sender_id@) + le_bytes(a.amount as nat, 16)
            + framed(a.msg@),
        TransactionKind::Deposit(proof) => proof@,
        TransactionKind::FtTransferCall(a) => transfer_call_input(a),
        TransactionKind::FinishDeposit(a) => framed(a.new_owner_id@) + le_bytes(a.amount as nat, 16)
            + framed(a.proof_key@) + framed(a.relayer_id@) + le_bytes(a.fee as nat, 16)
            + framed_option(
            match a.msg {
                None => None,
                Some(m) => Some(transfer_call_input(m)),
            },
        ),
        TransactionKind::ResolveTransfer(a, _) => framed(a.sender_id@) + le_bytes(a.amount as nat, 16)
            + framed(a.receiver_id@),
        TransactionKind::FtTransfer(a) => framed(a.receiver_id@) + le_bytes(a.amount as nat, 16)
            + framed_option(option_bytes(a.memo)),
        TransactionKind::Withdraw(a) => a.recipient_address@ + le_bytes(a.amount as nat, 16),
        TransactionKind::StorageDeposit(a) => framed_option(option_bytes(a.account_id))
            + bool_option(a.registration_only),
        TransactionKind::StorageUnregister(force) => bool_option(force),
        TransactionKind::StorageWithdraw(a) => le_option(a.amount, 16),
        TransactionKind::SetPausedFlags(a) => seq![a.paused_mask],
        TransactionKind::RegisterRelayer(address) => address@,
        TransactionKind::RefundOnError(None) => seq![0u8],
        TransactionKind::RefundOnError(Some(a)) => seq![1u8] + a.recipient_address@ + (match a.erc20_address {
            None => seq![0u8],
            Some(e) => seq![1u8] + e@,
        }) + a.amount@,
        TransactionKind::SetConnectorData(a) => contract_data_input(a),
        TransactionKind::NewConnector(a) => contract_data_input(a),
        TransactionKind::NewEngine(a) => a.chain_id@ + framed(a.owner_id@) + framed(a.bridge_prover_id@)
            + le_bytes(a.upgrade_delay_blocks as nat, 8),
        TransactionKind::FactoryUpdate(code) => code@,
        TransactionKind::FactoryUpdateAddressVersion(a) => a.address@ + le_bytes(a.version as nat, 4),
        TransactionKind::FactorySetWNearAddress(address) => address@,
        TransactionKind::FundXccSubAccount(a) => a.target@ + framed_option(
            option_bytes(a.wnear_account_id),
        ),
        TransactionKind::PausePrecompiles(a) => le_bytes(a.paused_mask as nat, 4),
        TransactionKind::ResumePrecompiles(a) => le_bytes(a.paused_mask as nat, 4),
        TransactionKind::SetOwner(a) => framed(a.new_owner@),
        TransactionKind::SetUpgradeDelayBlocks(a) => le_bytes(a.upgrade_delay_blocks as nat, 8),
        TransactionKind::PauseContract => Seq::empty(),
        TransactionKind::ResumeContract => Seq::empty(),
        TransactionKind::SetKeyManager(a) => framed_option(option_bytes(a.key_manager)),
        TransactionKind::AddRelayerKey(a) => framed(a.public_key@),
        TransactionKind::RemoveRelayerKey(a) => framed(a.public_key@),
        TransactionKind::StartHashchain(a) => le_bytes(a.block_height as nat, 8) + a.block_hashchain@,
        TransactionKind::Unknown => Seq::empty(),
    }
}

/// The encoded arguments of a transfer call; none when a part is too long for its frame.
pub fn transfer_call_bytes(a: &TransferCallCallArgs) -> (r: Option<Vec<u8>>)
    ensures
        r is Some <==> transfer_call_fits(*a),
        r is Some ==> r.unwrap()@ == transfer_call_input(*a),
{
    if !frame_fits(&a.receiver_id) || !option_frame_fits(&a.memo) || !frame_fits(&a.msg) {
        return None;
    }
    let mut out = framed_vec(a.receiver_id.as_slice());
    put_le(&mut out, a.amount, 16);
    put_framed_option(&mut out, &a.memo);
    put_framed(&mut out, a.msg.as_slice());
    Some(out)
}

/// The encoded arguments of a connector-data update.
fn contract_data_bytes(a: &SetContractDataCallArgs) -> (r: Vec<u8>)
    requires
        fits_frame(a.prover_account@),
        fits_frame(a.eth_custodian_address@),
    ensures
        r@ == contract_data_input(*a),
{
    let mut out = framed_vec(a.prover_account.as_slice());
    put_framed(&mut out, a.eth_custodian_address.as_slice());
    out
}

/// The input that the hashchain commits to for `transaction`; none when a variable-length
/// argument is too long for its four-byte frame.
pub fn get_input(transaction: &TransactionKind) -> (r: Option<Vec<u8>>)
    ensures
        r is Some <==> kind_fits(*transaction),
        r is Some ==> r.unwrap()@ == kind_input(*transaction),
{
    match transaction {
        TransactionKind::Submit(tx) => Some(copy_bytes(tx.as_slice())),
        TransactionKind::SubmitWithArgs(a) => {
            if !frame_fits(&a.tx_data) {
                return None;
            }
            let mut out = framed_vec(a.tx_data.as_slice());
            put_le_option(&mut out, a.max_gas_price, 16);
            let gas: Option<u128> = match a.gas_limit {
                None => None,
                Some(g) => Some(g as u128),
            };
            put_le_option(&mut out, gas, 8);
            Some(out)
        },
        TransactionKind::Call(a) => {
            if !frame_fits(&a.input) {
                return None;
            }
            let mut out = copy_bytes(a.contract.as_slice());
            put_bytes(&mut out, a.value.as_slice());
            put_framed(&mut out, a.input.as_slice());
            Some(out)
        },
        TransactionKind::Deploy(code) => Some(copy_bytes(code.as_slice())),
        TransactionKind::DeployErc20(a) => {
            if !frame_fits(&a.nep141) {
                return None;
            }
            Some(framed_vec(a.nep141.as_slice()))
        },
        TransactionKind::FtOnTransfer(a) => {
            if !frame_fits(&a.sender_id) || !frame_fits(&a.msg) {
                return None;
            }
            let mut out = framed_vec(a.sender_id.as_slice());
            put_le(&mut out, a.amount, 16);
            put_framed(&mut out, a.msg.as_slice());
            Some(out)
        },
        TransactionKind::Deposit(proof) => Some(copy_bytes(proof.as_slice())),
        TransactionKind::FtTransferCall(a) => transfer_call_bytes(a),
        TransactionKind::FinishDeposit(a) => {
            if !frame_fits(&a.new_owner_id) || !frame_fits(&a.proof_key) || !frame_fits(
                &a.relayer_id,
            ) {
                return None;
            }
            let msg: Option<Vec<u8>> = match &a.msg {
                None => None,
                Some(m) => match transfer_call_bytes(m) {
                    None => {
                        return None;
                    },
                    Some(b) => Some(b),
                },
            };
            if !option_frame_fits(&msg) {
                return None;
            }
            let mut out = framed_vec(a.new_owner_id.as_slice());
            put_le(&mut out, a.amount, 16);
            put_framed(&mut out, a.proof_key.as_slice());
            put_framed(&mut out, a.relayer_id.as_slice());
            put_le(&mut out, a.fee, 16);
            put_framed_option(&mut out, &msg);
            Some(out)
        },
        TransactionKind::ResolveTransfer(a, _) => {
            if !frame_fits(&a.sender_id) || !frame_fits(&a.receiver_id) {
                return None;
            }
            let mut out = framed_vec(a.sender_id.as_slice());
            put_le(&mut out, a.amount, 16);
            put_framed(&mut out, a.receiver_id.as_slice());
            Some(out)
        },
        TransactionKind::FtTransfer(a) => {
            if !frame_fits(&a.receiver_id) || !option_frame_fits(&a.memo) {
                return None;
            }
            let mut out = framed_vec(a.receiver_id.as_slice());
            put_le(&mut out, a.amount, 16);
            put_framed_option(&mut out, &a.memo);
            Some(out)
        },
        TransactionKind::Withdraw(a) => {
            let mut out = copy_bytes(a.recipient_address.as_slice());
            put_le(&mut out, a.amount, 16);
            Some(out)
        },
        TransactionKind::StorageDeposit(a) => {
            if !option_frame_fits(&a.account_id) {
                return None;
            }
            let mut out: Vec<u8> = Vec::new();
            put_framed_option(&mut out, &a.account_id);
            put_bool_option(&mut out, a.registration_only);
            assert(out@ =~= kind_input(*transaction));
            Some(out)
        },
        TransactionKind::StorageUnregister(force) => {
            let mut out: Vec<u8> = Vec::new();
            put_bool_option(&mut out, *force);
            assert(out@ =~= kind_input(*transaction));
            Some(out)
        },
        TransactionKind::StorageWithdraw(a) => {
            let mut out: Vec<u8> = Vec::new();
            put_le_option(&mut out, a.amount, 16);
            assert(out@ =~= kind_input(*transaction));
            Some(out)
        },
        TransactionKind::SetPausedFlags(a) => {
            let mut out: Vec<u8> = Vec::new();
            out.push(a.paused_mask);
            assert(out@ =~= kind_input(*transaction));
            Some(out)
        },
        TransactionKind::RegisterRelayer(address) => Some(copy_bytes(address.as_slice())),
        TransactionKind::RefundOnError(None) => {
            let mut out: Vec<u8> = Vec::new();
            out.push(0u8);
            assert(out@ =~= kind_input(*transaction));
            Some(out)
        },
        TransactionKind::RefundOnError(Some(a)) => {
            let mut out: Vec<u8> = Vec::new();
            out.push(1u8);
            put_bytes(&mut out, a.recipient_address.as_slice());
            match &a.erc20_address {
                None => {
                    out.push(0u8);
                },
                Some(e) => {
                    out.push(1u8);
                    put_bytes(&mut out, e.as_slice());
                },
            }
            put_bytes(&mut out, a.amount.as_slice());
            assert(out@ =~= kind_input(*transaction));
            Some(out)
        },
        TransactionKind::SetConnectorData(a) => {
            if !frame_fits(&a.prover_account) || !frame_fits(&a.eth_custodian_address) {
                return None;
            }
            Some(contract_data_bytes(a))
        },
        TransactionKind::NewConnector(a) => {
            if !frame_fits(&a.prover_account) || !frame_fits(&a.eth_custodian_address) {
                return None;
            }
            Some(contract_data_bytes(a))
        },
        TransactionKind::NewEngine(a) => {
            if !frame_fits(&a.owner_id) || !frame_fits(&a.bridge_prover_id) {
                return None;
            }
            let mut out = copy_bytes(a.chain_id.as_slice());
            put_framed(&mut out, a.owner_id.as_slice());
            put_framed(&mut out, a.bridge_prover_id.as_slice());
            put_le(&mut out, a.upgrade_delay_blocks as u128, 8);
            Some(out)
        },
        TransactionKind::FactoryUpdate(code) => Some(copy_bytes(code.as_slice())),
        TransactionKind::FactoryUpdateAddressVersion(a) => {
            let mut out = copy_bytes(a.address.as_slice());
            put_le(&mut out, a.version as u128, 4);
            Some(out)
        },
        TransactionKind::FactorySetWNearAddress(address) => Some(copy_bytes(address.as_slice())),
        TransactionKind::FundXccSubAccount(a) => {
            if !option_frame_fits(&a.wnear_account_id) {
                return None;
            }
            let mut out = copy_bytes(a.target.as_slice());
            put_framed_option(&mut out, &a.wnear_account_id);
            Some(out)
        },
        TransactionKind::PausePrecompiles(a) => {
            let mut out: Vec<u8> = Vec::new();
            put_le(&mut out, a.paused_mask as u128, 4);
            assert(out@ =~= kind_input(*transaction));
            Some(out)
        },
        TransactionKind::ResumePrecompiles(a) => {
            let mut out: Vec<u8> = Vec::new();
            put_le(&mut out, a.paused_mask as u128, 4);
            assert(out@ =~= kind_input(*transaction));
            Some(out)
        },
        TransactionKind::SetOwner(a) => {
            if !frame_fits(&a.new_owner) {
                return None;
            }
            Some(framed_vec(a.new_owner.as_slice()))
        },
        TransactionKind::SetUpgradeDelayBlocks(a) => {
            let mut out: Vec<u8> = Vec::new();
            put_le(&mut out, a.upgrade_delay_blocks as u128, 8);
            assert(out@ =~= kind_input(*transaction));
            Some(out)
        },
        TransactionKind::SetKeyManager(a) => {
            if !option_frame_fits(&a.key_manager) {
                return None;
            }
            let mut out: Vec<u8> = Vec::new();
            put_framed_option(&mut out, &a.key_manager);
            assert(out@ =~= kind_input(*transaction));
            Some(out)
        },
        TransactionKind::AddRelayerKey(a) => {
            if !frame_fits(&a.public_key) {
                return None;
            }
            Some(framed_vec(a.public_key.as_slice()))
        },
        TransactionKind::RemoveRelayerKey(a) => {
            if !frame_fits(&a.public_key) {
                return None;
            }
            Some(framed_vec(a.public_key.as_slice()))
        },
        TransactionKind::StartHashchain(a) => {
            let mut out: Vec<u8> = Vec::new();
            put_le(&mut out, a.block_height as u128, 8);
            put_bytes(&mut out, a.block_hashchain.as_slice());
            assert(out@ =~= kind_input(*transaction));
            Some(out)
        },
        TransactionKind::PauseContract | TransactionKind::ResumeContract | TransactionKind::Unknown => {
            let out: Vec<u8> = Vec::new();
            assert(out@ =~= kind_input(*transaction));
            Some(out)
        },
    }
}

/// Whether every framed part of an EVM result fits its four-byte frame.
pub open spec fn submit_result_fits(r: SubmitResult) -> bool {
    &&& match r.status {
        TransactionStatus::Succeed(b) => fits_frame(b@),
        TransactionStatus::Revert(b) => fits_frame(b@),
        _ => true,
    }
    &&& r.logs@.len() <= u32::MAX
    &&& forall|i: int|
        0 <= i < r.logs@.len() ==> (#[trigger] r.logs@[i]).topics@.len() <= u32::MAX
            && fits_frame(r.logs@[i].data@)
}

/// The encoding of how an EVM execution ended: a tag byte, then the output where there is one.
pub open spec fn status_encoding(s: TransactionStatus) -> Seq<u8> {
    match s {
        TransactionStatus::Succeed(b) => seq![0u8] + framed(b@),
        TransactionStatus::Revert(b) => seq![1u8] + framed(b@),
        TransactionStatus::OutOfGas => seq![2u8],
        TransactionStatus::OutOfFund => seq![3u8],
        TransactionStatus::OutOfOffset => seq![4u8],
        TransactionStatus::CallTooDeep => seq![5u8],
    }
}

/// The topics of a log, one after the other.
pub open spec fn topics_encoding(topics: Seq<Vec<u8>>) -> Seq<u8>
    decreases topics.len(),
{
    if topics.len() == 0 {
        Seq::empty()
    } else {
        topics_encoding(topics.drop_last()) + topics.last()@
    }
}

/// The encoding of one log: its address, the count of its topics, the topics, and its data.
pub open spec fn log_encoding(log: ResultLog) -> Seq<u8> {
    log.address@ + le_bytes(log.topics@.len(), 4) + topics_encoding(log.topics@) + framed(log.data@)
}

/// A list of logs, one after the other.
pub open spec fn logs_encoding(logs: Seq<ResultLog>) -> Seq<u8>
    decreases logs.len(),
{
    if logs.len() == 0 {
        Seq::empty()
    } else {
        logs_encoding(logs.drop_last()) + log_encoding(logs.last())
    }
}

/// The encoding of an EVM result: version, status, gas used, then the count of logs and the logs.
pub open spec fn submit_result_encoding(r: SubmitResult) -> Seq<u8> {
    seq![r.version] + status_encoding(r.status) + le_bytes(r.gas_used as nat, 8) + le_bytes(
        r.logs@.len(),
        4,
    ) + logs_encoding(r.logs@)
}

fn put_log(out: &mut Vec<u8>, log: &ResultLog)
    requires
        log.topics@.len() <= u32::MAX,
        fits_frame(log.data@),
    ensures
        final(out)@ == old(out)@ + log_encoding(*log),
{
    put_bytes(out, log.address.as_slice());
    put_le(out, log.topics.len() as u128, 4);
    let ghost mark = out@;
    let mut i: usize = 0;
    while i < log.topics.len()
        invariant
            i <= log.topics@.len(),
            out@ == mark + topics_encoding(log.topics@.subrange(0, i as int)),
        decreases log.topics@.len() - i,
    {
        assert(log.topics@.subrange(0, i + 1).drop_last() =~= log.topics@.subrange(0, i as int));
        put_bytes(out, log.topics[i].as_slice());
        i = i + 1;
        assert(out@ =~= mark + topics_encoding(log.topics@.subrange(0, i as int)));
    }
    assert(log.topics@.subrange(0, i as int) =~= log.topics@);
    put_framed(out, log.data.as_slice());
    assert(out@ =~= old(out)@ + log_encoding(*log));
}

/// The encoded EVM result that the hashchain commits to as a transaction's output; none when
/// a framed part is too long for its frame.
pub fn encode_submit_result(result: &SubmitResult) -> (r: Option<Vec<u8>>)
    ensures
        r is Some <==> submit_result_fits(*result),
        r is Some ==> r.unwrap()@ == submit_result_encoding(*result),
{
    let mut out: Vec<u8> = Vec::new();
    out.push(result.version);
    match &result.status {
        TransactionStatus::Succeed(b) => {
            if !frame_fits(b) {
                return None;
            }
            out.push(0u8);
            put_framed(&mut out, b.as_slice());
        },
        TransactionStatus::Revert(b) => {
            if !frame_fits(b) {
                return None;
            }
            out.push(1u8);
            put_framed(&mut out, b.as_slice());
        },
        TransactionStatus::OutOfGas => {
            out.push(2u8);
        },
        TransactionStatus::OutOfFund => {
            out.push(3u8);
        },
        TransactionStatus::OutOfOffset => {
            out.push(4u8);
        },
        TransactionStatus::CallTooDeep => {
            out.push(5u8);
        },
    }
    assert(out@ =~= seq![result.version] + status_encoding(result.status));
    put_le(&mut out, result.gas_used as u128, 8);
    if result.logs.len() as u128 > u32::MAX as u128 {
        return None;
    }
    put_le(&mut out, result.logs.len() as u128, 4);
    let ghost mark = out@;
    let mut i: usize = 0;
    while i < result.logs.len()
        invariant
            i <= result.logs@.len(),
            out@ == mark + logs_encoding(result.logs@.subrange(0, i as int)),
            forall|j: int|
                0 <= j < i ==> (#[trigger] result.logs@[j]).topics@.len() <= u32::MAX
                    && fits_frame(result.logs@[j].data@),
        decreases result.logs@.len() - i,
    {
        let log = &result.logs[i];
        if log.topics.len() as u128 > u32::MAX as u128 || !frame_fits(&log.data) {
            return None;
        }
        assert(result.logs@.subrange(0, i + 1).drop_last() =~= result.logs@.subrange(0, i as int));
        put_log(&mut out, log);
        i = i + 1;
        assert(out@ =~= mark + logs_encoding(result.logs@.subrange(0, i as int)));
    }
    assert(result.logs@.subrange(0, i as int) =~= result.logs@);
    Some(out)
}

/// The method name under which the hashchain records a transaction kind.
pub open spec fn method_name_of(k: TransactionKind) -> Seq<char> {
    match k {
        TransactionKind::Submit(_) => "submit"@,
        TransactionKind::SubmitWithArgs(_) => "submit_with_args"@,
        TransactionKind::Call(_) => "call"@,
        TransactionKind::Deploy(_) => "deploy_code"@,
        TransactionKind::DeployErc20(_) => "deploy_erc20_token"@,
        TransactionKind::FtOnTransfer(_) => "ft_on_transfer"@,
        TransactionKind::Deposit(_) => "deposit"@,
        TransactionKind::FtTransferCall(_) => "ft_transfer_call"@,
        TransactionKind::FinishDeposit(_) => "finish_deposit"@,
        TransactionKind::ResolveTransfer(..) => "ft_resolve_transfer"@,
        TransactionKind::FtTransfer(_) => "ft_transfer"@,
        TransactionKind::Withdraw(_) => "withdraw"@,
        TransactionKind::StorageDeposit(_) => "storage_deposit"@,
        TransactionKind::StorageUnregister(_) => "storage_unregister"@,
        TransactionKind::StorageWithdraw(_) => "storage_withdraw"@,
        TransactionKind::SetPausedFlags(_) => "set_paused_flags"@,
        TransactionKind::RegisterRelayer(_) => "register_relayer"@,
        TransactionKind::RefundOnError(_) => "refund_on_error"@,
        TransactionKind::SetConnectorData(_) => "set_eth_connector_contract_data"@,
        TransactionKind::NewConnector(_) => "new_connector"@,
        TransactionKind::NewEngine(_) => "new"@,
        TransactionKind::FactoryUpdate(_) => "factory_update"@,
        TransactionKind::FactoryUpdateAddressVersion(_) => "factory_update_address_version"@,
        TransactionKind::FactorySetWNearAddress(_) => "factory_set_wnear_address"@,
        TransactionKind::FundXccSubAccount(_) => "fund_xcc_sub_account"@,
        TransactionKind::PausePrecompiles(_) => "pause_precompiles"@,
        TransactionKind::ResumePrecompiles(_) => "resume_precompiles"@,
        TransactionKind::SetOwner(_) => "set_owner"@,
        TransactionKind::SetUpgradeDelayBlocks(_) => "set_upgrade_delay_blocks"@,
        TransactionKind::PauseContract => "pause_contract"@,
        TransactionKind::ResumeContract => "resume_contract"@,
        TransactionKind::SetKeyManager(_) => "set_key_manager"@,
        TransactionKind::AddRelayerKey(_) => "add_relayer_key"@,
        TransactionKind::RemoveRelayerKey(_) => "remove_relayer_key"@,
        TransactionKind::StartHashchain(_) => "start_hashchain"@,
        TransactionKind::Unknown => "unknown"@,
    }
}

/// The method name under which the hashchain records a transaction kind.
pub fn method_name(k: &TransactionKind) -> (r: &'static str)
    ensures
        r@ == method_name_of(*k),
{
    match k {
        TransactionKind::Submit(_) => "submit",
        TransactionKind::SubmitWithArgs(_) => "submit_with_args",
        TransactionKind::Call(_) => "call",
        TransactionKind::Deploy(_) => "deploy_code",
        TransactionKind::DeployErc20(_) => "deploy_erc20_token",
        TransactionKind::FtOnTransfer(_) => "ft_on_transfer",
        TransactionKind::Deposit(_) => "deposit",
        TransactionKind::FtTransferCall(_) => "ft_transfer_call",
        TransactionKind::FinishDeposit(_) => "finish_deposit",
        TransactionKind::ResolveTransfer(..) => "ft_resolve_transfer",
        TransactionKind::FtTransfer(_) => "ft_transfer",
        TransactionKind::Withdraw(_) => "withdraw",
        TransactionKind::StorageDeposit(_) => "storage_deposit",
        TransactionKind::StorageUnregister(_) => "storage_unregister",
        TransactionKind::StorageWithdraw(_) => "storage_withdraw",
        TransactionKind::SetPausedFlags(_) => "set_paused_flags",
        TransactionKind::RegisterRelayer(_) => "register_relayer",
        TransactionKind::RefundOnError(_) => "refund_on_error",
        TransactionKind::SetConnectorData(_) => "set_eth_connector_contract_data",
        TransactionKind::NewConnector(_) => "new_connector",
        TransactionKind::NewEngine(_) => "new",
        TransactionKind::FactoryUpdate(_) => "factory_update",
        TransactionKind::FactoryUpdateAddressVersion(_) => "factory_update_address_version",
        TransactionKind::FactorySetWNearAddress(_) => "factory_set_wnear_address",
        TransactionKind::FundXccSubAccount(_) => "fund_xcc_sub_account",
        TransactionKind::PausePrecompiles(_) => "pause_precompiles",
        TransactionKind::ResumePrecompiles(_) => "resume_precompiles",
        TransactionKind::SetOwner(_) => "set_owner",
        TransactionKind::SetUpgradeDelayBlocks(_) => "set_upgrade_delay_blocks",
        TransactionKind::PauseContract => "pause_contract",
        TransactionKind::ResumeContract => "resume_contract",
        TransactionKind::SetKeyManager(_) => "set_key_manager",
        TransactionKind::AddRelayerKey(_) => "add_relayer_key",
        TransactionKind::RemoveRelayerKey(_) => "remove_relayer_key",
        TransactionKind::StartHashchain(_) => "start_hashchain",
        TransactionKind::Unknown => "unknown",
    }
}

} // verus!
