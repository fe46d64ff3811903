//! The deposit flow's parsing: the borsh-encoded proof, the log entry it carries, and the
//! `Deposited` event in that entry.
use vstd::prelude::*;
use crate::codec::{copy_bytes, framed, le_bytes};
use crate::codec::{lemma_le_bytes_len, put_bytes, put_framed, put_le};
use crate::connector::{
    address_spec, decode_address, is_colon, name_bytes, proof_key, proof_key_spec, sole_colon_at, Proof, PromiseCreateArgs, PromiseView, PromiseWithCallbackArgs, PAUSE_DEPOSIT,
};
use crate::crypto::{keccak256, keccak_of};
use crate::errors::DepositError;
use crate::keyed::bytes_eq;
use crate::state::{ConnectorState, ConnectorView};

verus! {

/// The fields of a proof as values.
pub struct ProofView {
    pub log_index: u64,
    pub log_entry_data: Seq<u8>,
    pub receipt_index: u64,
    pub receipt_data: Seq<u8>,
    pub header_data: Seq<u8>,
    pub proof: Seq<Seq<u8>>,
}

impl View for Proof {
    type V = ProofView;

    open spec fn view(&self) -> ProofView {
        ProofView {
            log_index: self.log_index,
            log_entry_data: self.log_entry_data@,
            receipt_index: self.receipt_index,
            receipt_data: self.receipt_data@,
            header_data: self.header_data@,
            proof: self.proof@.map_values(|p: Vec<u8>| p@),
        }
    }
}

/// Framed byte strings, one after the other.
pub open spec fn frames(items: Seq<Seq<u8>>) -> Seq<u8>
    decreases items.len(),
{
    if items.len() == 0 {
        Seq::empty()
    } else {
        frames(items.drop_last()) + framed(items.last())
    }
}

/// The borsh encoding of a proof: its fields in order, integers as eight little-endian bytes,
/// byte strings framed by a four-byte length, the list of proof nodes behind its count.
pub open spec fn proof_encoding(p: ProofView) -> Seq<u8> {
    le_bytes(p.log_index as nat, 8) + framed(p.log_entry_data) + le_bytes(p.receipt_index as nat, 8)
        + framed(p.receipt_data) + framed(p.header_data) + le_bytes(p.proof.len(), 4) + frames(
        p.proof,
    )
}

/// Whether every length that the encoding of a proof frames fits four bytes: each byte
/// string, the number of proof nodes, and each node.
pub open spec fn proof_fits(p: ProofView) -> bool {
    &&& p.log_entry_data.len() <= u32::MAX
    &&& p.receipt_data.len() <= u32::MAX
    &&& p.header_data.len() <= u32::MAX
    &&& p.proof.len() <= u32::MAX
    &&& forall|i: int| 0 <= i < p.proof.len() ==> (#[trigger] p.proof[i]).len() <= u32::MAX
}

/// What the borsh decoding of a proof gives.
pub uninterp spec fn borsh_proof_of(raw: Seq<u8>) -> Option<ProofView>;

/// The view of a decoded proof.
pub open spec fn proof_view_opt(r: Option<Proof>) -> Option<ProofView> {
    match r {
        None => None,
        Some(p) => Some(p@),
    }
}

/// Relies on `borsh::from_slice`: a successful decoding read the input to its end and yields
/// the proof it encodes; the encoding of any proof whose lengths fit their four-byte frames
/// decodes.
#[verifier::external_body]
pub fn decode_proof(raw: &[u8]) -> (r: Option<Proof>)
    ensures
        proof_view_opt(r) == borsh_proof_of(raw@),
        r is Some ==> proof_encoding(r.unwrap()@) == raw@,
        (exists|p: ProofView| proof_fits(p) && proof_encoding(p) == raw@) ==> r is Some,
{
    match borsh::from_slice::<(u64, Vec<u8>, u64, Vec<u8>, Vec<u8>, Vec<Vec<u8>>)>(raw) {
        Ok((log_index, log_entry_data, receipt_index, receipt_data, header_data, proof)) => Some(
            Proof { log_index, log_entry_data, receipt_index, receipt_data, header_data, proof },
        ),
        Err(_) => None,
    }
}

/// A log entry of the external chain: the emitting address, the topics and the data.
pub struct LogEntryView {
    pub address: Seq<u8>,
    pub topics: Seq<Seq<u8>>,
    pub data: Seq<u8>,
}

/// What the RLP decoding of a log entry gives.
pub uninterp spec fn rlp_log_entry_of(data: Seq<u8>) -> Option<LogEntryView>;

/// The view of a decoded log entry.
pub open spec fn log_entry_view(r: Option<(Vec<u8>, Vec<Vec<u8>>, Vec<u8>)>) -> Option<LogEntryView> {
    match r {
        None => None,
        Some((a, t, d)) => Some(LogEntryView { address: a@, topics: t@.map_values(|x: Vec<u8>| x@), data: d@ }),
    }
}

/// Relies on `rlp::Rlp::val_at` and `rlp::Rlp::list_at`: the RLP list's first item as bytes,
/// its second item as a list of byte strings, and its third item as bytes.
#[verifier::external_body]
pub fn rlp_log_entry(data: &[u8]) -> (r: Option<(Vec<u8>, Vec<Vec<u8>>, Vec<u8>)>)
    ensures
        log_entry_view(r) == rlp_log_entry_of(data@),
{
    let rlp = rlp::Rlp::new(data);
    match (rlp.val_at::<Vec<u8>>(0), rlp.list_at::<Vec<u8>>(1), rlp.val_at::<Vec<u8>>(2)) {
        (Ok(address), Ok(topics), Ok(data)) => Some((address, topics, data)),
        _ => None,
    }
}

/// The non-indexed fields of a `Deposited` event: the recipient message, the amount and the fee.
pub struct DepositDataView {
    pub message: Seq<u8>,
    pub amount: u128,
    pub fee: u128,
}

/// What the ABI decoding of a `Deposited` event's data gives.
pub uninterp spec fn abi_deposit_data_of(data: Seq<u8>) -> Option<DepositDataView>;

/// Relies on `ethabi::decode` with the types `(string, uint256, uint256)`: the string's bytes
/// and the two numbers, none when the data does not decode or a number exceeds 128 bits.
#[verifier::external_body]
pub fn abi_deposit_data(data: &[u8]) -> (r: Option<(Vec<u8>, u128, u128)>)
    ensures
        match r {
            None => abi_deposit_data_of(data@) is None,
            Some((m, a, f)) => abi_deposit_data_of(data@) == Some(DepositDataView { message: m@, amount: a, fee: f }),
        },
{
    let types = [ethabi::ParamType::String, ethabi::ParamType::Uint(256), ethabi::ParamType::Uint(256)];
    match ethabi::decode(&types, data).as_deref() {
        Ok([ethabi::Token::String(m), ethabi::Token::Uint(a), ethabi::Token::Uint(f)]) => match (
            u128::try_from(*a),
            u128::try_from(*f),
        ) {
            (Ok(a), Ok(f)) => Some((m.clone().into_bytes(), a, f)),
            _ => None,
        },
        _ => None,
    }
}

/// The lowercase hex digit of a nibble.
pub open spec fn hex_char(n: u8) -> u8 {
    if n < 10 {
        (48 + n) as u8
    } else {
        (87 + n) as u8
    }
}

/// Two lowercase hex digits for each byte, high nibble first.
pub open spec fn hex_text(b: Seq<u8>) -> Seq<u8> {
    Seq::new(
        2 * b.len(),
        |i: int|
            if i % 2 == 0 {
                hex_char(b[i / 2] / 16)
            } else {
                hex_char(b[i / 2] % 16)
            },
    )
}

/// Relies on `hex::encode`: two lowercase hex digits for each byte, high nibble first.
#[verifier::external_body]
pub fn hex_encode(b: &[u8]) -> (r: Vec<u8>)
    ensures
        r@ == hex_text(b@),
{
    hex::encode(b).into_bytes()
}

/// Gas for the proof verification call of a deposit.
pub const GAS_FOR_VERIFY_LOG_ENTRY: u64 = 40_000_000_000_000;

/// Gas for the callback that completes a deposit.
pub const GAS_FOR_FINISH_DEPOSIT: u64 = 50_000_000_000_000;

/// Where a deposit goes: to an account of the upstream chain, or through the engine's own
/// account to an EVM address (the message then names the relayer, the recipient and the fee).
pub enum TokenMessageView {
    Near(Seq<u8>),
    Eth { receiver_id: Seq<u8>, recipient: Seq<u8>, fee: u128 },
}

/// The recipient part of a `Deposited` event: an account id, or `<account>:<address>`
/// where the address is 40 hex digits, possibly after `0x`.
pub open spec fn token_message_spec(m: Seq<u8>, fee: u128) -> Option<TokenMessageView> {
    if forall|i: int| 0 <= i < m.len() ==> !is_colon(#[trigger] m[i]) {
        if 2 <= m.len() <= 64 {
            Some(TokenMessageView::Near(m))
        } else {
            None
        }
    } else if exists|p: int| sole_colon_at(m, p) {
        let p = choose|p: int| sole_colon_at(m, p);
        let account = m.subrange(0, p);
        let text = m.subrange(p + 1, m.len() as int);
        let hex = if text.len() == 42 && text[0] == 48 && text[1] == 120 {
            Some(text.subrange(2, 42))
        } else if text.len() == 42 {
            None
        } else {
            Some(text)
        };
        if account.len() < 2 || account.len() > 64 || hex is None {
            None
        } else {
            match address_spec(hex.unwrap()) {
                Ok(a) => Some(TokenMessageView::Eth { receiver_id: account, recipient: a, fee }),
                Err(_) => None,
            }
        }
    } else {
        None
    }
}

/// The topic that identifies a `Deposited` event.
pub open spec fn deposited_signature() -> Seq<u8> {
    keccak_of(name_bytes("Deposited(address,string,uint256,uint256)"@))
}

/// A parsed `Deposited` event.
pub struct DepositEventView {
    pub custodian: Seq<u8>,
    pub sender: Seq<u8>,
    pub token: TokenMessageView,
    pub amount: u128,
    pub fee: u128,
}

/// The `Deposited` event in a proof's log entry: emitted from a 20-byte address with the
/// event's signature and the sender as its two topics.
pub open spec fn deposit_event_spec(log_entry_data: Seq<u8>) -> Option<DepositEventView> {
    match rlp_log_entry_of(log_entry_data) {
        None => None,
        Some(le) => if le.address.len() != 20 || le.topics.len() != 2 || le.topics[0].len() != 32
            || le.topics[1].len() != 32 || le.topics[0] != deposited_signature() {
            None
        } else {
            match abi_deposit_data_of(le.data) {
                None => None,
                Some(d) => match token_message_spec(d.message, d.fee) {
                    None => None,
                    Some(t) => Some(
                        DepositEventView {
                            custodian: le.address,
                            sender: le.topics[1].subrange(12, 32),
                            token: t,
                            amount: d.amount,
                            fee: d.fee,
                        },
                    ),
                },
            }
        },
    }
}

/// The message that sends a deposit on to an EVM address: the relayer, a colon, and the hex
/// text of the fee (32 little-endian bytes) followed by the recipient.
pub open spec fn eth_message_text(relayer: Seq<u8>, recipient: Seq<u8>, fee: u128) -> Seq<u8> {
    relayer + seq![58u8] + hex_text(le_bytes(fee as nat, 16) + Seq::new(16, |i: int| 0u8) + recipient)
}

/// The encoded arguments of the callback that completes a deposit.
pub open spec fn finish_args_encoding(
    ev: DepositEventView,
    key: Seq<u8>,
    predecessor: Seq<u8>,
    current: Seq<u8>,
) -> Seq<u8> {
    match ev.token {
        TokenMessageView::Near(account) => framed(account) + le_bytes(ev.amount as nat, 16) + framed(key)
            + framed(predecessor) + le_bytes(ev.fee as nat, 16) + seq![0u8],
        TokenMessageView::Eth { receiver_id, recipient, fee } => framed(current) + le_bytes(
            ev.amount as nat,
            16,
        ) + framed(key) + framed(predecessor) + le_bytes(ev.fee as nat, 16) + seq![1u8] + framed(
            framed(receiver_id) + le_bytes(ev.amount as nat, 16) + seq![0u8] + framed(
                eth_message_text(receiver_id, recipient, fee),
            ),
        ),
    }
}

/// Starting a deposit: refused while the deposit flow is paused, unless the engine itself asks;
/// the proof must decode, carry a `Deposited` event of the connector's custodian, and an
/// amount above the fee. The result is the proof verification call and the callback that
/// completes the deposit.
pub open spec fn deposit_spec(c: ConnectorView, raw: Seq<u8>, current: Seq<u8>, predecessor: Seq<u8>) -> Result<(PromiseView, PromiseView), DepositError> {
    if c.paused_mask & PAUSE_DEPOSIT != 0 && current != predecessor {
        Err(DepositError::Paused)
    } else {
        match borsh_proof_of(raw) {
            None => Err(DepositError::ProofParseFailed),
            Some(p) => match deposit_event_spec(p.log_entry_data) {
                None => Err(DepositError::EventParseFailed),
                Some(ev) => if ev.custodian != c.eth_custodian_address {
                    Err(DepositError::CustodianAddressMismatch)
                } else if ev.fee >= ev.amount {
                    Err(DepositError::InsufficientAmountForFee)
                } else {
                    Ok(
                        (
                            PromiseView {
                                target_account_id: c.prover_account,
                                method: name_bytes("verify_log_entry"@),
                                args: raw.push(0u8),
                                attached_balance: 0,
                                attached_gas: GAS_FOR_VERIFY_LOG_ENTRY,
                            },
                            PromiseView {
                                target_account_id: current,
                                method: name_bytes("finish_deposit"@),
                                args: finish_args_encoding(
                                    ev,
                                    proof_key_spec(p.log_index, p.receipt_index, p.header_data),
                                    predecessor,
                                    current,
                                ),
                                attached_balance: 0,
                                attached_gas: GAS_FOR_FINISH_DEPOSIT,
                            },
                        ),
                    )
                },
            },
        }
    }
}

/// Where a deposit goes.
#[derive(Debug, Clone)]
pub enum TokenMessageData {
    Near(Vec<u8>),
    Eth { receiver_id: Vec<u8>, recipient: Vec<u8>, fee: u128 },
}

impl TokenMessageData {
    /// The account fits 64 bytes and the address, if any, has 20.
    pub open spec fn short(&self) -> bool {
        match self {
            TokenMessageData::Near(a) => a@.len() <= 64,
            TokenMessageData::Eth { receiver_id, recipient, .. } => receiver_id@.len() <= 64
                && recipient@.len() == 20,
        }
    }
}

impl View for TokenMessageData {
    type V = TokenMessageView;

    open spec fn view(&self) -> TokenMessageView {
        match self {
            TokenMessageData::Near(a) => TokenMessageView::Near(a@),
            TokenMessageData::Eth { receiver_id, recipient, fee } => TokenMessageView::Eth {
                receiver_id: receiver_id@,
                recipient: recipient@,
                fee: *fee,
            },
        }
    }
}

/// Parses the recipient part of a `Deposited` event.
pub fn parse_token_message(m: &[u8], fee: u128) -> (r: Option<TokenMessageData>)
    ensures
        r is Some ==> r.unwrap().short(),
        match token_message_spec(m@, fee) {
            None => r is None,
            Some(t) => r is Some && r.unwrap()@ == t,
        },
{
    let mut count: usize = 0;
    let mut first: usize = 0;
    let mut second: usize = 0;
    let mut i: usize = 0;
    while i < m.len()
        invariant
            i <= m@.len(),
            count <= i,
            count == 0 ==> forall|j: int| 0 <= j < i ==> !is_colon(#[trigger] m@[j]),
            count >= 1 ==> first < i && is_colon(m@[first as int]),
            count == 1 ==> forall|j: int| 0 <= j < i && j != first ==> !is_colon(#[trigger] m@[j]),
            count >= 2 ==> second < i && second != first && is_colon(m@[second as int]),
        decreases m@.len() - i,
    {
        if m[i] == 58u8 {
            if count == 0 {
                first = i;
            } else if count == 1 {
                second = i;
            }
            count = count + 1;
        }
        i = i + 1;
    }
    if count == 0 {
        if m.len() < 2 || m.len() > 64 {
            return None;
        }
        return Some(TokenMessageData::Near(copy_bytes(m)));
    }
    if count >= 2 {
        proof {
            assert forall|p: int| !sole_colon_at(m@, p) by {
                if sole_colon_at(m@, p) {
                    if p != first as int {
                        assert(!is_colon(m@[first as int]));
                    } else {
                        assert(!is_colon(m@[second as int]));
                    }
                }
            }
        }
        return None;
    }
    assert(sole_colon_at(m@, first as int));
    let ghost p = choose|p: int| sole_colon_at(m@, p);
    assert(p == first) by {
        if p != first as int {
            assert(!is_colon(m@[first as int]));
        }
    }
    let account = copy_bytes(&m[0..first]);
    assert(account@ =~= m@.subrange(0, first as int));
    let text = copy_bytes(&m[first + 1..m.len()]);
    assert(text@ =~= m@.subrange(first + 1, m@.len() as int));
    let hex: Vec<u8> = if text.len() == 42 {
        if text[0] != 48u8 || text[1] != 120u8 {
            return None;
        }
        let h = copy_bytes(&text[2..42]);
        assert(h@ =~= text@.subrange(2, 42));
        h
    } else {
        text
    };
    if account.len() < 2 || account.len() > 64 {
        return None;
    }
    match decode_address(hex.as_slice()) {
        Err(_) => None,
        Ok(recipient) => Some(TokenMessageData::Eth { receiver_id: account, recipient, fee }),
    }
}

/// A parsed `Deposited` event.
#[derive(Debug, Clone)]
pub struct DepositedEvent {
    pub eth_custodian_address: Vec<u8>,
    pub sender: Vec<u8>,
    pub token_message_data: TokenMessageData,
    pub amount: u128,
    pub fee: u128,
}

impl View for DepositedEvent {
    type V = DepositEventView;

    open spec fn view(&self) -> DepositEventView {
        DepositEventView {
            custodian: self.eth_custodian_address@,
            sender: self.sender@,
            token: self.token_message_data@,
            amount: self.amount,
            fee: self.fee,
        }
    }
}

impl DepositedEvent {
    /// Finds the `Deposited` event in a proof's log entry.
    pub fn from_log_entry_data(data: &[u8]) -> (r: Option<DepositedEvent>)
        ensures
            r is Some ==> r.unwrap().token_message_data.short(),
            match deposit_event_spec(data@) {
                None => r is None,
                Some(ev) => r is Some && r.unwrap()@ == ev,
            },
    {
        let (address, topics, event_data) = match rlp_log_entry(data) {
            None => {
                return None;
            },
            Some(parts) => parts,
        };
        if address.len() != 20 || topics.len() != 2 || topics[0].len() != 32 || topics[1].len() != 32 {
            return None;
        }
        let signature = "Deposited(address,string,uint256,uint256)";
        let expected = keccak256(signature.as_bytes());
        if !bytes_eq(topics[0].as_slice(), expected.as_slice()) {
            return None;
        }
        let (message, amount, fee) = match abi_deposit_data(event_data.as_slice()) {
            None => {
                return None;
            },
            Some(d) => d,
        };
        let token_message_data = match parse_token_message(message.as_slice(), fee) {
            None => {
                return None;
            },
            Some(t) => t,
        };
        let sender = copy_bytes(&topics[1].as_slice()[12..32]);
        assert(sender@ =~= topics@[1]@.subrange(12, 32));
        Some(DepositedEvent { eth_custodian_address: address, sender, token_message_data, amount, fee })
    }
}

/// The message that sends a deposit on to an EVM address.
fn eth_message(relayer: &Vec<u8>, recipient: &Vec<u8>, fee: u128) -> (r: Vec<u8>)
    ensures
        r@.len() == relayer@.len() + 1 + 2 * (32 + recipient@.len()),
        r@ == eth_message_text(relayer@, recipient@, fee),
{
    let mut data: Vec<u8> = Vec::new();
    put_le(&mut data, fee, 16);
    put_le(&mut data, 0, 16);
    put_bytes(&mut data, recipient.as_slice());
    proof {
        lemma_le_zero(16);
    }
    assert(data@ =~= le_bytes(fee as nat, 16) + Seq::new(16, |i: int| 0u8) + recipient@);
    let mut out = copy_bytes(relayer.as_slice());
    out.push(58u8);
    let text = hex_encode(data.as_slice());
    proof {
        lemma_le_bytes_len(fee as nat, 16);
    }
    assert(text@.len() == 2 * data@.len());
    put_bytes(&mut out, text.as_slice());
    out
}

proof fn lemma_le_zero(n: nat)
    ensures
        le_bytes(0, n) == Seq::new(n, |i: int| 0u8),
    decreases n,
{
    if n > 0 {
        lemma_le_zero((n - 1) as nat);
        assert(le_bytes(0, n) =~= Seq::new(n, |i: int| 0u8));
    }
}

impl ConnectorState {
    /// Starts a deposit: checks the proof and its event, and returns the proof verification
    /// call with the callback that completes the deposit.
    pub fn deposit(&self, raw_proof: &Vec<u8>, current_account_id: &Vec<u8>, predecessor_account_id: &Vec<u8>) -> (r: Result<PromiseWithCallbackArgs, DepositError>)
        requires
            current_account_id@.len() <= u32::MAX,
            predecessor_account_id@.len() <= u32::MAX,
        ensures
            match deposit_spec(self@, raw_proof@, current_account_id@, predecessor_account_id@) {
                Ok(p) => r is Ok && r.unwrap()@ == p,
                Err(e) => r == Err::<PromiseWithCallbackArgs, _>(e),
            },
    {
        let is_owner = bytes_eq(current_account_id.as_slice(), predecessor_account_id.as_slice());
        if self.paused_mask & PAUSE_DEPOSIT != 0 && !is_owner {
            return Err(DepositError::Paused);
        }
        let proof = match decode_proof(raw_proof.as_slice()) {
            None => {
                return Err(DepositError::ProofParseFailed);
            },
            Some(p) => p,
        };
        let event = match DepositedEvent::from_log_entry_data(proof.log_entry_data.as_slice()) {
            None => {
                return Err(DepositError::EventParseFailed);
            },
            Some(e) => e,
        };
        if !bytes_eq(event.eth_custodian_address.as_slice(), self.contract.eth_custodian_address.as_slice()) {
            return Err(DepositError::CustodianAddressMismatch);
        }
        if event.fee >= event.amount {
            return Err(DepositError::InsufficientAmountForFee);
        }
        let key = proof_key(&proof);
        let mut verify_args = copy_bytes(raw_proof.as_slice());
        verify_args.push(0u8);
        let mut finish_args: Vec<u8> = Vec::new();
        match &event.token_message_data {
            TokenMessageData::Near(account) => {
                put_framed(&mut finish_args, account.as_slice());
            },
            TokenMessageData::Eth { .. } => {
                put_framed(&mut finish_args, current_account_id.as_slice());
            },
        }
        put_le(&mut finish_args, event.amount, 16);
        put_framed(&mut finish_args, key.as_slice());
        put_framed(&mut finish_args, predecessor_account_id.as_slice());
        put_le(&mut finish_args, event.fee, 16);
        match &event.token_message_data {
            TokenMessageData::Near(_) => {
                finish_args.push(0u8);
            },
            TokenMessageData::Eth { receiver_id, recipient, fee } => {
                finish_args.push(1u8);
                let text = eth_message(receiver_id, recipient, *fee);
                let mut transfer: Vec<u8> = Vec::new();
                put_framed(&mut transfer, receiver_id.as_slice());
                put_le(&mut transfer, event.amount, 16);
                transfer.push(0u8);
                put_framed(&mut transfer, text.as_slice());
                proof {
                    lemma_le_bytes_len(receiver_id@.len() as nat, 4);
                    lemma_le_bytes_len(event.amount as nat, 16);
                    lemma_le_bytes_len(text@.len() as nat, 4);
                }
                assert(transfer@.len() <= 1000);
                put_framed(&mut finish_args, transfer.as_slice());
            },
        }
        assert(finish_args@ =~= finish_args_encoding(event@, key@, predecessor_account_id@, current_account_id@));
        Ok(
            PromiseWithCallbackArgs {
                base: PromiseCreateArgs {
                    target_account_id: copy_bytes(self.contract.prover_account.as_slice()),
                    method: copy_bytes("verify_log_entry".as_bytes()),
                    args: verify_args,
                    attached_balance: 0,
                    attached_gas: GAS_FOR_VERIFY_LOG_ENTRY,
                },
                callback: PromiseCreateArgs {
                    target_account_id: copy_bytes(current_account_id.as_slice()),
                    method: copy_bytes("finish_deposit".as_bytes()),
                    args: finish_args,
                    attached_balance: 0,
                    attached_gas: GAS_FOR_FINISH_DEPOSIT,
                },
            },
        )
    }
}

} // verus!
