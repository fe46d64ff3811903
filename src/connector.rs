//! The eth-connector: its ledger of ETH on the upstream chain's accounts and on EVM
//! addresses, and the bridge and fungible-token operations on it.
use vstd::prelude::*;
use crate::codec::{copy_bytes, framed, le_bytes};
use crate::crypto::{hex_bytes, hex_decode, is_hex};
use crate::errors::{
    AddressError, FinishDepositError, FtTransferCallError, FtWithdrawError, InitContractError, ParseOnTransferMessageError,
    ProofUsed, StorageFundingError, TransferError, WithdrawError,
};
use crate::keyed::{bytes_eq, KeyedMap};
use crate::state::{ConnectorState, ConnectorView, EthConnector, FungibleToken};

verus! {

/// Paused flag of the deposit flow.
pub const PAUSE_DEPOSIT: u8 = 1;

/// Paused flag of the withdraw flow.
pub const PAUSE_WITHDRAW: u8 = 2;

/// The balance under `k`, zero for an account that has none.
pub open spec fn balance_in(m: Map<Seq<u8>, u128>, k: Seq<u8>) -> nat {
    if m.contains_key(k) {
        m[k] as nat
    } else {
        0
    }
}

/// The balance under `key`, zero for an account that has none.
pub fn balance_of(m: &KeyedMap<u128>, key: &[u8]) -> (r: u128)
    requires
        m.wf(),
    ensures
        r as nat == balance_in(m@, key@),
{
    match m.get(key) {
        None => 0,
        Some(v) => *v,
    }
}

/// Mints `amount` of ETH on NEAR to `account`, registering it if needed.
pub open spec fn mint_near_spec(c: ConnectorView, account: Seq<u8>, amount: u128) -> Result<
    ConnectorView,
    TransferError,
> {
    let balance = balance_in(c.near_balances, account) + amount;
    let total = c.total_on_near + amount;
    if balance > u128::MAX {
        Err(TransferError::BalanceOverflow)
    } else if total > u128::MAX {
        Err(TransferError::TotalSupplyOverflow)
    } else {
        Ok(
            ConnectorView {
                near_balances: c.near_balances.insert(account, balance as u128),
                total_on_near: total as u128,
                ..c
            },
        )
    }
}

/// Burns `amount` of ETH on NEAR from a registered `account`.
pub open spec fn burn_near_spec(c: ConnectorView, account: Seq<u8>, amount: u128) -> Result<
    ConnectorView,
    FtWithdrawError,
> {
    if !c.near_balances.contains_key(account) {
        Err(FtWithdrawError::AccountNotRegistered)
    } else if c.near_balances[account] < amount {
        Err(FtWithdrawError::InsufficientFunds)
    } else if c.total_on_near < amount {
        Err(FtWithdrawError::TotalSupplyUnderflow)
    } else {
        Ok(
            ConnectorView {
                near_balances: c.near_balances.insert(
                    account,
                    (c.near_balances[account] - amount) as u128,
                ),
                total_on_near: (c.total_on_near - amount) as u128,
                ..c
            },
        )
    }
}

/// Moves `amount` of ETH on NEAR between two distinct registered accounts.
pub open spec fn transfer_near_spec(
    c: ConnectorView,
    sender: Seq<u8>,
    receiver: Seq<u8>,
    amount: u128,
) -> Result<ConnectorView, TransferError> {
    if sender == receiver {
        Err(TransferError::SelfTransfer)
    } else if amount == 0 {
        Err(TransferError::ZeroAmount)
    } else if !c.near_balances.contains_key(sender) || !c.near_balances.contains_key(receiver) {
        Err(TransferError::AccountNotRegistered)
    } else if c.near_balances[sender] < amount {
        Err(TransferError::InsufficientAmount)
    } else if c.near_balances[receiver] + amount > u128::MAX {
        Err(TransferError::BalanceOverflow)
    } else {
        Ok(
            ConnectorView {
                near_balances: c.near_balances.insert(
                    sender,
                    (c.near_balances[sender] - amount) as u128,
                ).insert(receiver, (c.near_balances[receiver] + amount) as u128),
                ..c
            },
        )
    }
}

/// Mints `amount` of ETH on Aurora to the EVM address `address`.
pub open spec fn mint_aurora_spec(c: ConnectorView, address: Seq<u8>, amount: u128) -> Result<
    ConnectorView,
    TransferError,
> {
    let balance = balance_in(c.aurora_balances, address) + amount;
    let total = c.total_on_aurora + amount;
    if balance > u128::MAX {
        Err(TransferError::BalanceOverflow)
    } else if total > u128::MAX {
        Err(TransferError::TotalSupplyOverflow)
    } else {
        Ok(
            ConnectorView {
                aurora_balances: c.aurora_balances.insert(address, balance as u128),
                total_on_aurora: total as u128,
                ..c
            },
        )
    }
}

impl ConnectorState {
    pub fn mint_eth_on_near(&mut self, account: &[u8], amount: u128) -> (r: Result<(), TransferError>)
        requires
            old(self).wf(),
        ensures
            final(self).wf(),
            match mint_near_spec(old(self)@, account@, amount) {
                Ok(c) => r is Ok && final(self)@ == c,
                Err(e) => r == Err::<(), _>(e) && final(self)@ == old(self)@,
            },
    {
        let balance = balance_of(&self.ft.accounts_eth, account);
        if balance > u128::MAX - amount {
            return Err(TransferError::BalanceOverflow);
        }
        if self.ft.total_eth_supply_on_near > u128::MAX - amount {
            return Err(TransferError::TotalSupplyOverflow);
        }
        self.ft.accounts_eth.insert(copy_bytes(account), balance + amount);
        self.ft.total_eth_supply_on_near = self.ft.total_eth_supply_on_near + amount;
        Ok(())
    }

    pub fn burn_eth_on_near(&mut self, account: &[u8], amount: u128) -> (r: Result<(), FtWithdrawError>)
        requires
            old(self).wf(),
        ensures
            final(self).wf(),
            match burn_near_spec(old(self)@, account@, amount) {
                Ok(c) => r is Ok && final(self)@ == c,
                Err(e) => r == Err::<(), _>(e) && final(self)@ == old(self)@,
            },
    {
        let balance = match self.ft.accounts_eth.get(account) {
            None => {
                return Err(FtWithdrawError::AccountNotRegistered);
            },
            Some(b) => *b,
        };
        if balance < amount {
            return Err(FtWithdrawError::InsufficientFunds);
        }
        if self.ft.total_eth_supply_on_near < amount {
            return Err(FtWithdrawError::TotalSupplyUnderflow);
        }
        self.ft.accounts_eth.insert(copy_bytes(account), balance - amount);
        self.ft.total_eth_supply_on_near = self.ft.total_eth_supply_on_near - amount;
        Ok(())
    }

    pub fn transfer_eth_on_near(&mut self, sender: &[u8], receiver: &[u8], amount: u128) -> (r: Result<
        (),
        TransferError,
    >)
        requires
            old(self).wf(),
        ensures
            final(self).wf(),
            match transfer_near_spec(old(self)@, sender@, receiver@, amount) {
                Ok(c) => r is Ok && final(self)@ == c,
                Err(e) => r == Err::<(), _>(e) && final(self)@ == old(self)@,
            },
    {
        if bytes_eq(sender, receiver) {
            return Err(TransferError::SelfTransfer);
        }
        if amount == 0 {
            return Err(TransferError::ZeroAmount);
        }
        let sender_balance = match self.ft.accounts_eth.get(sender) {
            None => {
                return Err(TransferError::AccountNotRegistered);
            },
            Some(b) => *b,
        };
        let receiver_balance = match self.ft.accounts_eth.get(receiver) {
            None => {
                return Err(TransferError::AccountNotRegistered);
            },
            Some(b) => *b,
        };
        if sender_balance < amount {
            return Err(TransferError::InsufficientAmount);
        }
        if receiver_balance > u128::MAX - amount {
            return Err(TransferError::BalanceOverflow);
        }
        self.ft.accounts_eth.insert(copy_bytes(sender), sender_balance - amount);
        self.ft.accounts_eth.insert(copy_bytes(receiver), receiver_balance + amount);
        Ok(())
    }

    pub fn mint_eth_on_aurora(&mut self, address: &[u8], amount: u128) -> (r: Result<(), TransferError>)
        requires
            old(self).wf(),
        ensures
            final(self).wf(),
            match mint_aurora_spec(old(self)@, address@, amount) {
                Ok(c) => r is Ok && final(self)@ == c,
                Err(e) => r == Err::<(), _>(e) && final(self)@ == old(self)@,
            },
    {
        let balance = balance_of(&self.ft.aurora_balances, address);
        if balance > u128::MAX - amount {
            return Err(TransferError::BalanceOverflow);
        }
        if self.ft.total_eth_supply_on_aurora > u128::MAX - amount {
            return Err(TransferError::TotalSupplyOverflow);
        }
        self.ft.aurora_balances.insert(copy_bytes(address), balance + amount);
        self.ft.total_eth_supply_on_aurora = self.ft.total_eth_supply_on_aurora + amount;
        Ok(())
    }
}

/// `256` to the power `n`.
pub open spec fn pow256(n: nat) -> nat
    decreases n,
{
    if n == 0 {
        1
    } else {
        256 * pow256((n - 1) as nat)
    }
}

/// The number whose little-endian bytes are `s`.
pub open spec fn le_value(s: Seq<u8>) -> nat
    decreases s.len(),
{
    if s.len() == 0 {
        0
    } else {
        s[0] as nat + 256 * le_value(s.drop_first())
    }
}

proof fn lemma_le_value_bound(s: Seq<u8>)
    ensures
        le_value(s) < pow256(s.len()),
    decreases s.len(),
{
    if s.len() > 0 {
        lemma_le_value_bound(s.drop_first());
        let x = le_value(s.drop_first());
        let p = pow256((s.len() - 1) as nat);
        let b = s[0] as nat;
        assert(b + 256 * x < 256 * p) by (nonlinear_arith)
            requires
                x < p,
                b < 256,
        ;
    }
}

/// The number whose little-endian bytes are the first sixteen of `b`.
fn le_u128(b: &[u8]) -> (r: u128)
    requires
        b@.len() >= 16,
    ensures
        r as nat == le_value(b@.subrange(0, 16)),
{
    let mut v: u128 = 0;
    let mut i: usize = 16;
    proof {
        reveal_with_fuel(pow256, 17);
    }
    assert(pow256(16) == 0x1_0000_0000_0000_0000_0000_0000_0000_0000);
    while i > 0
        invariant
            i <= 16,
            b@.len() >= 16,
            v as nat == le_value(b@.subrange(i as int, 16)),
            pow256(16) == 0x1_0000_0000_0000_0000_0000_0000_0000_0000,
        decreases i,
    {
        let ghost tail = b@.subrange(i - 1, 16);
        assert(tail.drop_first() =~= b@.subrange(i as int, 16));
        proof {
            lemma_le_value_bound(tail);
            lemma_pow256_mono(tail.len(), 16);
        }
        v = b[i - 1] as u128 + 256 * v;
        i = i - 1;
    }
    v
}

proof fn lemma_pow256_mono(a: nat, b: nat)
    requires
        a <= b,
    ensures
        pow256(a) <= pow256(b),
    decreases b,
{
    if a < b {
        lemma_pow256_mono(a, (b - 1) as nat);
    }
}

/// The parsed transfer notification message: the relayer account, the recipient's EVM address
/// and the fee owed to the relayer.
#[derive(Debug, Clone)]
pub struct FtTransferMessageData {
    pub relayer: Vec<u8>,
    pub recipient: Vec<u8>,
    pub fee: u128,
}

pub struct MessageDataView {
    pub relayer: Seq<u8>,
    pub recipient: Seq<u8>,
    pub fee: u128,
}

impl View for FtTransferMessageData {
    type V = MessageDataView;

    open spec fn view(&self) -> MessageDataView {
        MessageDataView { relayer: self.relayer@, recipient: self.recipient@, fee: self.fee }
    }
}

/// The byte `:`.
pub open spec fn is_colon(c: u8) -> bool {
    c == 58
}

/// `p` is the one colon of `s`.
pub open spec fn sole_colon_at(s: Seq<u8>, p: int) -> bool {
    &&& 0 <= p < s.len()
    &&& is_colon(s[p])
    &&& forall|i: int| 0 <= i < s.len() && i != p ==> !is_colon(#[trigger] s[i])
}

/// The parse of a transfer notification message `<relayer>:<hex>`, where the hex text decodes
/// to a 20-byte recipient address, or to a 32-byte little-endian fee and then the address.
pub open spec fn parse_message_spec(s: Seq<u8>) -> Result<MessageDataView, ParseOnTransferMessageError> {
    if !(exists|p: int| sole_colon_at(s, p)) {
        Err(ParseOnTransferMessageError::TooManyParts)
    } else {
        let p = choose|p: int| sole_colon_at(s, p);
        let relayer = s.subrange(0, p);
        let text = s.subrange(p + 1, s.len() as int);
        if relayer.len() < 2 || relayer.len() > 64 {
            Err(ParseOnTransferMessageError::InvalidAccount)
        } else if !is_hex(text) {
            Err(ParseOnTransferMessageError::InvalidHexData)
        } else {
            let d = hex_bytes(text);
            if d.len() == 20 {
                Ok(MessageDataView { relayer, recipient: d, fee: 0 })
            } else if d.len() != 52 {
                Err(ParseOnTransferMessageError::WrongMessageFormat)
            } else if exists|i: int| 16 <= i < 32 && d[i] != 0 {
                Err(ParseOnTransferMessageError::OverflowNumber)
            } else {
                Ok(
                    MessageDataView {
                        relayer,
                        recipient: d.subrange(32, 52),
                        fee: le_value(d.subrange(0, 16)) as u128,
                    },
                )
            }
        }
    }
}

/// Parses a transfer notification message `<relayer>:<hex>`: the hex text decodes to the
/// recipient's 20-byte address, or to a 32-byte little-endian fee and then the address.
pub fn parse_on_transfer_message(msg: &[u8]) -> (r: Result<FtTransferMessageData, ParseOnTransferMessageError>)
    ensures
        match parse_message_spec(msg@) {
            Ok(d) => r is Ok && r.unwrap()@ == d,
            Err(e) => r == Err::<FtTransferMessageData, _>(e),
        },
{
    let mut count: usize = 0;
    let mut first: usize = 0;
    let mut second: usize = 0;
    let mut i: usize = 0;
    while i < msg.len()
        invariant
            i <= msg@.len(),
            count <= i,
            count == 0 ==> forall|j: int| 0 <= j < i ==> !is_colon(#[trigger] msg@[j]),
            count >= 1 ==> first < i && is_colon(msg@[first as int]),
            count == 1 ==> forall|j: int| 0 <= j < i && j != first ==> !is_colon(#[trigger] msg@[j]),
            count >= 2 ==> second < i && second != first && is_colon(msg@[second as int]),
        decreases msg@.len() - i,
    {
        if msg[i] == 58u8 {
            if count == 0 {
                first = i;
            } else if count == 1 {
                second = i;
            }
            count = count + 1;
        }
        i = i + 1;
    }
    if count != 1 {
        proof {
            if count >= 2 {
                assert forall|p: int| !sole_colon_at(msg@, p) by {
                    if sole_colon_at(msg@, p) {
                        if p != first as int {
                            assert(!is_colon(msg@[first as int]));
                        } else {
                            assert(!is_colon(msg@[second as int]));
                        }
                    }
                }
            }
        }
        return Err(ParseOnTransferMessageError::TooManyParts);
    }
    assert(sole_colon_at(msg@, first as int));
    let ghost p = choose|p: int| sole_colon_at(msg@, p);
    assert(p == first) by {
        if p != first as int {
            assert(!is_colon(msg@[first as int]));
        }
    }
    if first < 2 || first > 64 {
        return Err(ParseOnTransferMessageError::InvalidAccount);
    }
    let relayer = copy_bytes(&msg[0..first]);
    assert(relayer@ =~= msg@.subrange(0, first as int));
    let text = copy_bytes(&msg[first + 1..msg.len()]);
    assert(text@ =~= msg@.subrange(first + 1, msg@.len() as int));
    let decoded = match hex_decode(text.as_slice()) {
        None => {
            return Err(ParseOnTransferMessageError::InvalidHexData);
        },
        Some(d) => d,
    };
    let ghost tx = msg@.subrange(p + 1, msg@.len() as int);
    assert(is_hex(tx) && decoded@ == hex_bytes(tx));
    if decoded.len() == 20 {
        return Ok(FtTransferMessageData { relayer, recipient: decoded, fee: 0 });
    }
    if decoded.len() != 52 {
        return Err(ParseOnTransferMessageError::WrongMessageFormat);
    }
    let mut k: usize = 16;
    while k < 32
        invariant
            16 <= k <= 32,
            decoded@.len() == 52,
            decoded@ == hex_bytes(tx),
            is_hex(tx),
            tx == msg@.subrange(p + 1, msg@.len() as int),
            p == first,
            sole_colon_at(msg@, p),
            p == choose|p: int| sole_colon_at(msg@, p),
            2 <= first <= 64,
            forall|j: int| 16 <= j < k ==> decoded@[j] == 0,
        decreases 32 - k,
    {
        if decoded[k] != 0 {
            assert(exists|j: int| 16 <= j < 32 && decoded@[j] != 0) by {
                assert(decoded@[k as int] != 0);
            }
            return Err(ParseOnTransferMessageError::OverflowNumber);
        }
        k = k + 1;
    }
    let fee = le_u128(decoded.as_slice());
    let recipient = copy_bytes(&decoded[32..52]);
    assert(recipient@ =~= decoded@.subrange(32, 52));
    Ok(FtTransferMessageData { relayer, recipient, fee })
}

/// Gas kept back from a transfer call for the settling callback.
pub const GAS_FOR_RESOLVE_TRANSFER: u64 = 5_000_000_000_000;

/// Gas a transfer call reserves for itself and the settling callback.
pub const GAS_FOR_FT_TRANSFER_CALL: u64 = 30_000_000_000_000;

/// The recorded intent of one cross-contract call.
#[derive(Debug, Clone)]
pub struct PromiseCreateArgs {
    pub target_account_id: Vec<u8>,
    pub method: Vec<u8>,
    pub args: Vec<u8>,
    pub attached_balance: u128,
    pub attached_gas: u64,
}

/// A cross-contract call and the callback that follows it.
#[derive(Debug, Clone)]
pub struct PromiseWithCallbackArgs {
    pub base: PromiseCreateArgs,
    pub callback: PromiseCreateArgs,
}

pub struct PromiseView {
    pub target_account_id: Seq<u8>,
    pub method: Seq<u8>,
    pub args: Seq<u8>,
    pub attached_balance: u128,
    pub attached_gas: u64,
}

impl View for PromiseCreateArgs {
    type V = PromiseView;

    open spec fn view(&self) -> PromiseView {
        PromiseView {
            target_account_id: self.target_account_id@,
            method: self.method@,
            args: self.args@,
            attached_balance: self.attached_balance,
            attached_gas: self.attached_gas,
        }
    }
}

impl View for PromiseWithCallbackArgs {
    type V = (PromiseView, PromiseView);

    open spec fn view(&self) -> (PromiseView, PromiseView) {
        (self.base@, self.callback@)
    }
}

/// The bytes of a method name.
pub open spec fn name_bytes(name: Seq<char>) -> Seq<u8> {
    vstd::utf8::encode_utf8(name)
}

/// The call to the receiver's notification method and the settling callback that a transfer
/// call of `amount` from `sender` records.
pub open spec fn transfer_call_promise(
    sender: Seq<u8>,
    current: Seq<u8>,
    receiver: Seq<u8>,
    amount: u128,
    msg: Seq<u8>,
    prepaid_gas: u64,
) -> (PromiseView, PromiseView) {
    (
        PromiseView {
            target_account_id: receiver,
            method: name_bytes("ft_on_transfer"@),
            args: framed(sender) + le_bytes(amount as nat, 16) + framed(msg),
            attached_balance: 0,
            attached_gas: if prepaid_gas >= GAS_FOR_FT_TRANSFER_CALL {
                (prepaid_gas - GAS_FOR_FT_TRANSFER_CALL) as u64
            } else {
                0
            },
        },
        PromiseView {
            target_account_id: current,
            method: name_bytes("ft_resolve_transfer"@),
            args: framed(sender) + le_bytes(amount as nat, 16) + framed(receiver),
            attached_balance: 0,
            attached_gas: GAS_FOR_RESOLVE_TRANSFER,
        },
    )
}

/// The checks a transfer call to the engine itself makes on its message before any transfer.
pub open spec fn transfer_call_check(c: ConnectorView, current: Seq<u8>, receiver: Seq<u8>, amount: u128, msg: Seq<u8>) -> Option<FtTransferCallError> {
    if receiver != current {
        None
    } else {
        match parse_message_spec(msg) {
            Err(e) => Some(FtTransferCallError::MessageParseFailed(e)),
            Ok(d) => if d.fee >= amount {
                Some(FtTransferCallError::InsufficientAmountForFee)
            } else if balance_in(c.aurora_balances, d.recipient) + amount > u128::MAX {
                Some(FtTransferCallError::Transfer(TransferError::BalanceOverflow))
            } else if c.total_on_aurora + amount > u128::MAX {
                Some(FtTransferCallError::Transfer(TransferError::TotalSupplyOverflow))
            } else {
                None
            },
        }
    }
}

/// A transfer call: the checks, then the transfer to the receiver.
pub open spec fn ft_transfer_call_spec(
    c: ConnectorView,
    sender: Seq<u8>,
    current: Seq<u8>,
    receiver: Seq<u8>,
    amount: u128,
    msg: Seq<u8>,
) -> Result<ConnectorView, FtTransferCallError> {
    match transfer_call_check(c, current, receiver, amount, msg) {
        Some(e) => Err(e),
        None => match transfer_near_spec(c, sender, receiver, amount) {
            Err(e) => Err(FtTransferCallError::Transfer(e)),
            Ok(c2) => Ok(c2),
        },
    }
}

/// A transfer notification to the engine: the relayer's fee, if the relayer is registered and
/// the fee is not zero, and the rest of the amount are minted as ETH on Aurora.
pub open spec fn ft_on_transfer_spec(
    c: ConnectorView,
    relayers: Map<Seq<u8>, Seq<u8>>,
    amount: u128,
    msg: Seq<u8>,
) -> Result<ConnectorView, FtTransferCallError> {
    match parse_message_spec(msg) {
        Err(e) => Err(FtTransferCallError::MessageParseFailed(e)),
        Ok(d) => {
            let pays_fee = relayers.contains_key(d.relayer) && d.fee > 0;
            if pays_fee && amount < d.fee {
                Err(FtTransferCallError::InsufficientAmountForFee)
            } else {
                let first = if pays_fee {
                    mint_aurora_spec(c, relayers[d.relayer], d.fee)
                } else {
                    Ok(c)
                };
                match first {
                    Err(e) => Err(FtTransferCallError::Transfer(e)),
                    Ok(c1) => match mint_aurora_spec(
                        c1,
                        d.recipient,
                        if pays_fee {
                            (amount - d.fee) as u128
                        } else {
                            amount
                        },
                    ) {
                        Err(e) => Err(FtTransferCallError::Transfer(e)),
                        Ok(c2) => Ok(c2),
                    },
                }
            }
        },
    }
}

/// A copy of a method name's bytes.
fn name_vec(name: &str) -> (r: Vec<u8>)
    ensures
        r@ == name_bytes(name@),
{
    copy_bytes(name.as_bytes())
}

impl ConnectorState {
    /// A transfer call: when the receiver is the engine itself the message must parse, the
    /// fee must be below the amount and the recipient's ETH on Aurora must have room for it;
    /// then the amount moves to the receiver and the notification call with its settling
    /// callback is recorded.
    pub fn ft_transfer_call(
        &mut self,
        predecessor_account_id: &Vec<u8>,
        current_account_id: &Vec<u8>,
        args: &crate::transaction::TransferCallCallArgs,
        prepaid_gas: u64,
    ) -> (r: Result<PromiseWithCallbackArgs, FtTransferCallError>)
        requires
            old(self).wf(),
            predecessor_account_id@.len() <= u32::MAX,
            args.receiver_id@.len() <= u32::MAX,
            args.msg@.len() <= u32::MAX,
        ensures
            final(self).wf(),
            match ft_transfer_call_spec(
                old(self)@,
                predecessor_account_id@,
                current_account_id@,
                args.receiver_id@,
                args.amount,
                args.msg@,
            ) {
                Ok(c) => r is Ok && final(self)@ == c && r.unwrap()@ == transfer_call_promise(
                    predecessor_account_id@,
                    current_account_id@,
                    args.receiver_id@,
                    args.amount,
                    args.msg@,
                    prepaid_gas,
                ),
                Err(e) => r == Err::<PromiseWithCallbackArgs, _>(e),
            },
    {
        if bytes_eq(args.receiver_id.as_slice(), current_account_id.as_slice()) {
            let data = match parse_on_transfer_message(args.msg.as_slice()) {
                Err(e) => {
                    return Err(FtTransferCallError::MessageParseFailed(e));
                },
                Ok(d) => d,
            };
            if data.fee >= args.amount {
                return Err(FtTransferCallError::InsufficientAmountForFee);
            }
            let balance = balance_of(&self.ft.aurora_balances, data.recipient.as_slice());
            if balance > u128::MAX - args.amount {
                return Err(FtTransferCallError::Transfer(TransferError::BalanceOverflow));
            }
            if self.ft.total_eth_supply_on_aurora > u128::MAX - args.amount {
                return Err(FtTransferCallError::Transfer(TransferError::TotalSupplyOverflow));
            }
        }
        match self.transfer_eth_on_near(
            predecessor_account_id.as_slice(),
            args.receiver_id.as_slice(),
            args.amount,
        ) {
            Err(e) => {
                return Err(FtTransferCallError::Transfer(e));
            },
            Ok(()) => {},
        }
        let mut notify_args = crate::codec::framed_vec(predecessor_account_id.as_slice());
        crate::codec::put_le(&mut notify_args, args.amount, 16);
        crate::codec::put_framed(&mut notify_args, args.msg.as_slice());
        let mut resolve_args = crate::codec::framed_vec(predecessor_account_id.as_slice());
        crate::codec::put_le(&mut resolve_args, args.amount, 16);
        crate::codec::put_framed(&mut resolve_args, args.receiver_id.as_slice());
        let gas: u64 = if prepaid_gas >= GAS_FOR_FT_TRANSFER_CALL {
            prepaid_gas - GAS_FOR_FT_TRANSFER_CALL
        } else {
            0
        };
        Ok(
            PromiseWithCallbackArgs {
                base: PromiseCreateArgs {
                    target_account_id: copy_bytes(args.receiver_id.as_slice()),
                    method: name_vec("ft_on_transfer"),
                    args: notify_args,
                    attached_balance: 0,
                    attached_gas: gas,
                },
                callback: PromiseCreateArgs {
                    target_account_id: copy_bytes(current_account_id.as_slice()),
                    method: name_vec("ft_resolve_transfer"),
                    args: resolve_args,
                    attached_balance: 0,
                    attached_gas: GAS_FOR_RESOLVE_TRANSFER,
                },
            },
        )
    }

    /// A transfer notification to the engine: parses the message, then mints the relayer's
    /// fee (when the relayer is registered and the fee is not zero) and the rest of the
    /// amount as ETH on Aurora.
    pub fn ft_on_transfer(
        &mut self,
        relayers: &KeyedMap<Vec<u8>>,
        args: &crate::transaction::NEP141FtOnTransferArgs,
    ) -> (r: Result<(), FtTransferCallError>)
        requires
            old(self).wf(),
            relayers.wf(),
        ensures
            final(self).wf(),
            match ft_on_transfer_spec(old(self)@, relayers@, args.amount, args.msg@) {
                Ok(c) => r is Ok && final(self)@ == c,
                Err(e) => r == Err::<(), _>(e),
            },
    {
        let data = match parse_on_transfer_message(args.msg.as_slice()) {
            Err(e) => {
                return Err(FtTransferCallError::MessageParseFailed(e));
            },
            Ok(d) => d,
        };
        let mut amount = args.amount;
        match relayers.get(data.relayer.as_slice()) {
            Some(address) => {
                if data.fee > 0 {
                    if amount < data.fee {
                        return Err(FtTransferCallError::InsufficientAmountForFee);
                    }
                    amount = amount - data.fee;
                    match self.mint_eth_on_aurora(address.as_slice(), data.fee) {
                        Err(e) => {
                            return Err(FtTransferCallError::Transfer(e));
                        },
                        Ok(()) => {},
                    }
                }
            },
            None => {},
        }
        match self.mint_eth_on_aurora(data.recipient.as_slice(), amount) {
            Err(e) => Err(FtTransferCallError::Transfer(e)),
            Ok(()) => Ok(()),
        }
    }
}

/// A withdrawal: refused while the withdraw flow is paused, unless the engine itself asks;
/// else the amount is burnt from the caller's ETH on NEAR.
pub open spec fn withdraw_spec(c: ConnectorView, current: Seq<u8>, predecessor: Seq<u8>, amount: u128) -> Result<ConnectorView, WithdrawError> {
    if c.paused_mask & PAUSE_WITHDRAW != 0 && current != predecessor {
        Err(WithdrawError::Paused)
    } else {
        match burn_near_spec(c, predecessor, amount) {
            Err(e) => Err(WithdrawError::FT(e)),
            Ok(c2) => Ok(c2),
        }
    }
}

/// The value of a string of decimal digits.
pub open spec fn decimal_value(s: Seq<u8>) -> nat
    decreases s.len(),
{
    if s.len() == 0 {
        0
    } else {
        decimal_value(s.drop_last()) * 10 + (s.last() - 48) as nat
    }
}

pub open spec fn is_digit(c: u8) -> bool {
    48 <= c <= 57
}

/// The number that a non-empty string of decimal digits stands for, if it fits 128 bits.
pub open spec fn decimal_u128(d: Seq<u8>) -> Option<u128> {
    if d.len() >= 1 && (forall|i: int| 0 <= i < d.len() ==> is_digit(#[trigger] d[i]))
        && decimal_value(d) <= u128::MAX {
        Some(decimal_value(d) as u128)
    } else {
        None
    }
}

/// An unsigned number written as text: an optional `+`, then decimal digits.
pub open spec fn unsigned_text_value(t: Seq<u8>) -> Option<u128> {
    if t.len() > 0 && t[0] == 43 {
        decimal_u128(t.drop_first())
    } else {
        decimal_u128(t)
    }
}

/// The string that a JSON document holds.
pub uninterp spec fn json_string_of(v: Seq<u8>) -> Option<Seq<u8>>;

/// Relies on `serde_json::from_slice::<String>`: the UTF-8 bytes of the JSON string that the
/// input holds; none when it holds anything else.
#[verifier::external_body]
fn json_string(v: &[u8]) -> (r: Option<Vec<u8>>)
    ensures
        match r {
            None => json_string_of(v@) is None,
            Some(t) => json_string_of(v@) == Some(t@),
        },
{
    match serde_json::from_slice::<String>(v) {
        Ok(text) => Some(text.into_bytes()),
        Err(_) => None,
    }
}

/// The amount that a JSON string such as `"123"` stands for, if it fits 128 bits.
pub open spec fn json_u128(v: Seq<u8>) -> Option<u128> {
    match json_string_of(v) {
        None => None,
        Some(t) => unsigned_text_value(t),
    }
}

/// Reads the amount that a JSON string such as `"123"` stands for.
pub fn parse_json_u128(v: &[u8]) -> (r: Option<u128>)
    ensures
        r == json_u128(v@),
{
    let text = json_string(v)?;
    if text.len() > 0 && text[0] == 43u8 {
        let digits = copy_bytes(&text[1..text.len()]);
        assert(digits@ =~= text@.drop_first());
        parse_decimal(digits.as_slice())
    } else {
        parse_decimal(text.as_slice())
    }
}

/// Reads a non-empty string of decimal digits as a number, if it fits 128 bits.
pub fn parse_decimal(v: &[u8]) -> (r: Option<u128>)
    ensures
        r == decimal_u128(v@),
{
    let n = v.len();
    if n < 1 {
        return None;
    }
    let mut k: usize = 0;
    while k < n
        invariant
            n == v@.len(),
            k <= n,
            forall|j: int| 0 <= j < k ==> is_digit(#[trigger] v@[j]),
        decreases n - k,
    {
        if v[k] < 48u8 || v[k] > 57u8 {
            return None;
        }
        k = k + 1;
    }
    let mut value: u128 = 0;
    let mut i: usize = 0;
    assert(v@.subrange(0, 0) =~= Seq::<u8>::empty());
    while i < n
        invariant
            n == v@.len(),
            i <= n,
            forall|j: int| 0 <= j < n ==> is_digit(#[trigger] v@[j]),
            value as nat == decimal_value(v@.subrange(0, i as int)),
        decreases n - i,
    {
        assert(is_digit(v@[i as int]));
        let d = (v[i] - 48u8) as u128;
        assert(v@.subrange(0, i + 1).drop_last() =~= v@.subrange(0, i as int));
        if value > (u128::MAX - d) / 10 {
            proof {
                lemma_decimal_prefix_grows(v@, i + 1);
                assert((value as nat) * 10 + d > u128::MAX) by (nonlinear_arith)
                    requires
                        value > (u128::MAX - d) / 10,
                        d <= 9,
                ;
            }
            return None;
        }
        assert((value as nat) * 10 + d <= u128::MAX) by (nonlinear_arith)
            requires
                value <= (u128::MAX - d) / 10,
                d <= 9,
        ;
        value = value * 10 + d;
        i = i + 1;
    }
    assert(v@.subrange(0, i as int) =~= v@);
    Some(value)
}

/// A longer prefix of a digit string has a value at least as large.
proof fn lemma_decimal_prefix_grows(s: Seq<u8>, k: int)
    requires
        0 <= k <= s.len(),
        forall|j: int| 0 <= j < s.len() ==> is_digit(#[trigger] s[j]),
    ensures
        decimal_value(s.subrange(0, k)) <= decimal_value(s),
    decreases s.len() - k,
{
    if k == s.len() {
        assert(s.subrange(0, k) =~= s);
    } else {
        assert(forall|j: int| 0 <= j < s.drop_last().len() ==> is_digit(#[trigger] s.drop_last()[j])) by {
            assert(forall|j: int| 0 <= j < s.drop_last().len() ==> s.drop_last()[j] == s[j]);
        }
        lemma_decimal_prefix_grows(s.drop_last(), k);
        assert(s.drop_last().subrange(0, k) =~= s.subrange(0, k));
        assert(is_digit(s[s.len() - 1]));
    }
}

/// The part of a transferred amount that the receiver did not use, as the settled call reports it.
pub open spec fn unused_amount(result: crate::transaction::PromiseResult, amount: u128) -> u128 {
    match result {
        crate::transaction::PromiseResult::Successful(v) => match json_u128(v@) {
            Some(x) => if x < amount {
                x
            } else {
                amount
            },
            None => amount,
        },
        _ => amount,
    }
}

/// Settling a transfer call: what the receiver did not use, up to its balance, goes back to
/// the sender, or is burnt when the sender is no longer registered.
pub open spec fn resolve_transfer_spec(
    c: ConnectorView,
    sender: Seq<u8>,
    receiver: Seq<u8>,
    amount: u128,
    result: crate::transaction::PromiseResult,
) -> Result<ConnectorView, TransferError> {
    let unused = unused_amount(result, amount);
    let receiver_balance = balance_in(c.near_balances, receiver);
    if unused == 0 || receiver_balance == 0 {
        Ok(c)
    } else {
        let refund = if receiver_balance < unused {
            receiver_balance
        } else {
            unused as nat
        };
        let balances = c.near_balances.insert(receiver, (receiver_balance - refund) as u128);
        if balances.contains_key(sender) {
            if balances[sender] + refund > u128::MAX {
                Err(TransferError::BalanceOverflow)
            } else {
                Ok(
                    ConnectorView {
                        near_balances: balances.insert(sender, (balances[sender] + refund) as u128),
                        ..c
                    },
                )
            }
        } else {
            Ok(
                ConnectorView {
                    near_balances: balances,
                    total_on_near: if c.total_on_near >= refund {
                        (c.total_on_near - refund) as u128
                    } else {
                        0
                    },
                    ..c
                },
            )
        }
    }
}

/// Registering an account for storage: a new account starts with a zero balance.
pub open spec fn storage_deposit_spec(c: ConnectorView, account: Seq<u8>) -> ConnectorView {
    if c.near_balances.contains_key(account) {
        c
    } else {
        ConnectorView { near_balances: c.near_balances.insert(account, 0), ..c }
    }
}

/// Unregistering an account: refused while it holds a balance unless forced; a forced
/// unregistration burns the balance.
pub open spec fn storage_unregister_spec(c: ConnectorView, account: Seq<u8>, force: Option<bool>) -> Result<ConnectorView, StorageFundingError> {
    if !c.near_balances.contains_key(account) {
        Ok(c)
    } else {
        let balance = c.near_balances[account];
        if balance > 0 && force != Some(true) {
            Err(StorageFundingError::UnRegisterPositiveBalance)
        } else {
            Ok(
                ConnectorView {
                    near_balances: c.near_balances.remove(account),
                    total_on_near: if c.total_on_near >= balance {
                        (c.total_on_near - balance) as u128
                    } else {
                        0
                    },
                    ..c
                },
            )
        }
    }
}

/// Withdrawing storage deposit: the account must be registered, and no storage balance is
/// ever available beyond the minimum.
pub open spec fn storage_withdraw_spec(c: ConnectorView, account: Seq<u8>, amount: Option<u128>) -> Option<StorageFundingError> {
    if !c.near_balances.contains_key(account) {
        Some(StorageFundingError::NotRegistered)
    } else if amount is Some && amount.unwrap() > 0 {
        Some(StorageFundingError::NoAvailableBalance)
    } else {
        None
    }
}

impl ConnectorState {
    /// Moves `amount` of ETH on NEAR from the caller to the receiver.
    pub fn ft_transfer(&mut self, predecessor_account_id: &Vec<u8>, args: &crate::transaction::TransferCallArgs) -> (r: Result<(), TransferError>)
        requires
            old(self).wf(),
        ensures
            final(self).wf(),
            match transfer_near_spec(old(self)@, predecessor_account_id@, args.receiver_id@, args.amount) {
                Ok(c) => r is Ok && final(self)@ == c,
                Err(e) => r == Err::<(), _>(e),
            },
    {
        self.transfer_eth_on_near(predecessor_account_id.as_slice(), args.receiver_id.as_slice(), args.amount)
    }

    /// Burns the caller's ETH on NEAR for a withdrawal to the external chain.
    pub fn withdraw_eth_from_near(
        &mut self,
        current_account_id: &Vec<u8>,
        predecessor_account_id: &Vec<u8>,
        args: &crate::transaction::WithdrawCallArgs,
    ) -> (r: Result<(), WithdrawError>)
        requires
            old(self).wf(),
        ensures
            final(self).wf(),
            match withdraw_spec(old(self)@, current_account_id@, predecessor_account_id@, args.amount) {
                Ok(c) => r is Ok && final(self)@ == c,
                Err(e) => r == Err::<(), _>(e),
            },
    {
        let is_owner = bytes_eq(current_account_id.as_slice(), predecessor_account_id.as_slice());
        if self.paused_mask & PAUSE_WITHDRAW != 0 && !is_owner {
            return Err(WithdrawError::Paused);
        }
        match self.burn_eth_on_near(predecessor_account_id.as_slice(), args.amount) {
            Err(e) => Err(WithdrawError::FT(e)),
            Ok(()) => Ok(()),
        }
    }

    /// Settles a transfer call from the reported outcome of the receiver's notification.
    pub fn ft_resolve_transfer(
        &mut self,
        args: &crate::transaction::ResolveTransferCallArgs,
        promise_result: &crate::transaction::PromiseResult,
    ) -> (r: Result<(), TransferError>)
        requires
            old(self).wf(),
        ensures
            final(self).wf(),
            match resolve_transfer_spec(old(self)@, args.sender_id@, args.receiver_id@, args.amount, *promise_result) {
                Ok(c) => r is Ok && final(self)@ == c,
                Err(e) => r == Err::<(), _>(e),
            },
    {
        let unused: u128 = match promise_result {
            crate::transaction::PromiseResult::Successful(v) => match parse_json_u128(v.as_slice()) {
                Some(x) => if x < args.amount {
                    x
                } else {
                    args.amount
                },
                None => args.amount,
            },
            _ => args.amount,
        };
        let receiver_balance = balance_of(&self.ft.accounts_eth, args.receiver_id.as_slice());
        if unused == 0 || receiver_balance == 0 {
            return Ok(());
        }
        let refund: u128 = if receiver_balance < unused {
            receiver_balance
        } else {
            unused
        };
        let ghost c0 = self@;
        let ghost balances = c0.near_balances.insert(args.receiver_id@, (receiver_balance - refund) as u128);
        match self.ft.accounts_eth.get(args.sender_id.as_slice()) {
            Some(_) => {
                let sender_balance = if bytes_eq(args.sender_id.as_slice(), args.receiver_id.as_slice()) {
                    receiver_balance - refund
                } else {
                    balance_of(&self.ft.accounts_eth, args.sender_id.as_slice())
                };
                assert(sender_balance == balances[args.sender_id@]);
                if sender_balance > u128::MAX - refund {
                    return Err(TransferError::BalanceOverflow);
                }
                self.ft.accounts_eth.insert(copy_bytes(args.receiver_id.as_slice()), receiver_balance - refund);
                self.ft.accounts_eth.insert(copy_bytes(args.sender_id.as_slice()), sender_balance + refund);
            },
            None => {
                assert(!balances.contains_key(args.sender_id@));
                self.ft.accounts_eth.insert(copy_bytes(args.receiver_id.as_slice()), receiver_balance - refund);
                self.ft.total_eth_supply_on_near = if self.ft.total_eth_supply_on_near >= refund {
                    self.ft.total_eth_supply_on_near - refund
                } else {
                    0
                };
            },
        }
        Ok(())
    }

    /// Registers an account for storage, with a zero balance if it is new.
    pub fn storage_deposit(&mut self, account_id: &Vec<u8>)
        requires
            old(self).wf(),
        ensures
            final(self).wf(),
            final(self)@ == storage_deposit_spec(old(self)@, account_id@),
    {
        if !self.ft.accounts_eth.contains(account_id.as_slice()) {
            self.ft.accounts_eth.insert(copy_bytes(account_id.as_slice()), 0);
        }
    }

    /// Unregisters an account; one that holds a balance only when forced, burning the balance.
    pub fn storage_unregister(&mut self, account_id: &Vec<u8>, force: Option<bool>) -> (r: Result<(), StorageFundingError>)
        requires
            old(self).wf(),
        ensures
            final(self).wf(),
            match storage_unregister_spec(old(self)@, account_id@, force) {
                Ok(c) => r is Ok && final(self)@ == c,
                Err(e) => r == Err::<(), _>(e),
            },
    {
        let balance = match self.ft.accounts_eth.get(account_id.as_slice()) {
            None => {
                return Ok(());
            },
            Some(b) => *b,
        };
        let forced = match force {
            Some(true) => true,
            _ => false,
        };
        if balance > 0 && !forced {
            return Err(StorageFundingError::UnRegisterPositiveBalance);
        }
        self.ft.accounts_eth.remove(account_id.as_slice());
        self.ft.total_eth_supply_on_near = if self.ft.total_eth_supply_on_near >= balance {
            self.ft.total_eth_supply_on_near - balance
        } else {
            0
        };
        Ok(())
    }

    /// Withdraws storage deposit: only an amount of zero, by a registered account, is allowed.
    pub fn storage_withdraw(&self, account_id: &Vec<u8>, amount: Option<u128>) -> (r: Result<(), StorageFundingError>)
        requires
            self.wf(),
        ensures
            match storage_withdraw_spec(self@, account_id@, amount) {
                Some(e) => r == Err::<(), _>(e),
                None => r is Ok,
            },
    {
        if !self.ft.accounts_eth.contains(account_id.as_slice()) {
            return Err(StorageFundingError::NotRegistered);
        }
        match amount {
            Some(a) => if a > 0 {
                return Err(StorageFundingError::NoAvailableBalance);
            },
            None => {},
        }
        Ok(())
    }

    /// Sets the paused flags of the deposit and withdraw flows.
    pub fn set_paused_flags(&mut self, paused_mask: u8)
        ensures
            final(self)@ == (ConnectorView { paused_mask, ..old(self)@ }),
            final(self).wf() == old(self).wf(),
    {
        self.paused_mask = paused_mask;
    }
}

/// The address that 40 hex digits stand for.
pub open spec fn address_spec(text: Seq<u8>) -> Result<Seq<u8>, AddressError> {
    if text.len() != 40 {
        Err(AddressError::IncorrectLength)
    } else if !is_hex(text) {
        Err(AddressError::FailedDecodeHex)
    } else {
        Ok(hex_bytes(text))
    }
}

/// Decodes a 20-byte address from 40 hex digits.
pub fn decode_address(text: &[u8]) -> (r: Result<Vec<u8>, AddressError>)
    ensures
        match address_spec(text@) {
            Ok(a) => r is Ok && r.unwrap()@ == a,
            Err(e) => r == Err::<Vec<u8>, _>(e),
        },
{
    if text.len() != 40 {
        return Err(AddressError::IncorrectLength);
    }
    match hex_decode(text) {
        None => Err(AddressError::FailedDecodeHex),
        Some(a) => Ok(a),
    }
}

/// A new connector: the given prover and custodian, the owner registered with a zero
/// balance, no supply, no paused flag and no used proof.
pub open spec fn new_connector_view(prover: Seq<u8>, custodian: Seq<u8>, owner: Seq<u8>) -> ConnectorView {
    ConnectorView {
        prover_account: prover,
        eth_custodian_address: custodian,
        total_on_near: 0,
        total_on_aurora: 0,
        near_balances: Map::<Seq<u8>, u128>::empty().insert(owner, 0),
        aurora_balances: Map::empty(),
        paused_mask: 0,
        used_proofs: Set::empty(),
    }
}

/// Creates the connector record, once: the custodian address must be 40 hex digits.
pub fn create_contract(
    existing: &Option<ConnectorState>,
    owner_id: &Vec<u8>,
    args: &crate::transaction::SetContractDataCallArgs,
) -> (r: Result<ConnectorState, InitContractError>)
    ensures
        existing is Some ==> r == Err::<ConnectorState, _>(InitContractError::AlreadyInitialized),
        existing is None ==> match address_spec(args.eth_custodian_address@) {
            Ok(a) => r is Ok && r.unwrap().wf() && r.unwrap()@ == new_connector_view(
                args.prover_account@,
                a,
                owner_id@,
            ),
            Err(_) => r == Err::<ConnectorState, _>(InitContractError::InvalidCustodianAddress),
        },
{
    if existing.is_some() {
        return Err(InitContractError::AlreadyInitialized);
    }
    let custodian = match decode_address(args.eth_custodian_address.as_slice()) {
        Err(_) => {
            return Err(InitContractError::InvalidCustodianAddress);
        },
        Ok(a) => a,
    };
    let mut accounts: KeyedMap<u128> = KeyedMap::new();
    accounts.insert(copy_bytes(owner_id.as_slice()), 0);
    let r = ConnectorState {
        contract: EthConnector {
            prover_account: copy_bytes(args.prover_account.as_slice()),
            eth_custodian_address: custodian,
        },
        ft: FungibleToken {
            total_eth_supply_on_near: 0,
            total_eth_supply_on_aurora: 0,
            accounts_eth: accounts,
            aurora_balances: KeyedMap::new(),
        },
        paused_mask: 0,
        used_proofs: KeyedMap::new(),
    };
    assert(r@.used_proofs =~= Set::<Seq<u8>>::empty());
    Ok(r)
}

impl ConnectorState {
    /// Replaces the prover account and the custodian address, which must be 40 hex digits.
    pub fn set_contract_data(&mut self, args: &crate::transaction::SetContractDataCallArgs) -> (r: Result<(), AddressError>)
        requires
            old(self).wf(),
        ensures
            final(self).wf(),
            match address_spec(args.eth_custodian_address@) {
                Ok(a) => r is Ok && final(self)@ == (ConnectorView {
                    prover_account: args.prover_account@,
                    eth_custodian_address: a,
                    ..old(self)@
                }),
                Err(e) => r == Err::<(), _>(e),
            },
    {
        let custodian = decode_address(args.eth_custodian_address.as_slice())?;
        self.contract = EthConnector {
            prover_account: copy_bytes(args.prover_account.as_slice()),
            eth_custodian_address: custodian,
        };
        Ok(())
    }

    /// Records a deposit proof as used; fails if it already was.
    pub fn record_proof(&mut self, key: &Vec<u8>) -> (r: Result<(), ProofUsed>)
        requires
            old(self).wf(),
        ensures
            final(self).wf(),
            old(self)@.used_proofs.contains(key@) ==> r is Err,
            !old(self)@.used_proofs.contains(key@) ==> r is Ok && final(self)@ == (ConnectorView {
                used_proofs: old(self)@.used_proofs.insert(key@),
                ..old(self)@
            }),
    {
        if self.used_proofs.contains(key.as_slice()) {
            return Err(ProofUsed);
        }
        self.used_proofs.insert(copy_bytes(key.as_slice()), ());
        assert(self@.used_proofs =~= old(self)@.used_proofs.insert(key@));
        Ok(())
    }
}

/// Completing a deposit. Without a follow-up transfer call, the amount less the fee is minted
/// to the new owner and the fee to the relayer; with one, the whole amount is minted to the
/// new owner (the engine itself) and the transfer call is made. Either way the proof is then
/// recorded as used.
pub open spec fn finish_deposit_spec(
    c: ConnectorView,
    predecessor: Seq<u8>,
    current: Seq<u8>,
    args: crate::transaction::FinishDepositCallArgs,
) -> Result<ConnectorView, FinishDepositError> {
    let transfer_err = |e: TransferError| FinishDepositError::TransferCall(FtTransferCallError::Transfer(e));
    match args.msg {
        None => if args.fee > args.amount {
            Err(FinishDepositError::TransferCall(FtTransferCallError::InsufficientAmountForFee))
        } else {
            match mint_near_spec(c, args.new_owner_id@, (args.amount - args.fee) as u128) {
                Err(e) => Err(transfer_err(e)),
                Ok(c1) => match mint_near_spec(c1, args.relayer_id@, args.fee) {
                    Err(e) => Err(transfer_err(e)),
                    Ok(c2) => if c2.used_proofs.contains(args.proof_key@) {
                        Err(FinishDepositError::ProofUsed)
                    } else {
                        Ok(ConnectorView { used_proofs: c2.used_proofs.insert(args.proof_key@), ..c2 })
                    },
                },
            }
        },
        Some(m) => match mint_near_spec(c, args.new_owner_id@, args.amount) {
            Err(e) => Err(transfer_err(e)),
            Ok(c1) => if c1.used_proofs.contains(args.proof_key@) {
                Err(FinishDepositError::ProofUsed)
            } else {
                let c2 = ConnectorView { used_proofs: c1.used_proofs.insert(args.proof_key@), ..c1 };
                match ft_transfer_call_spec(c2, predecessor, current, m.receiver_id@, m.amount, m.msg@) {
                    Err(e) => Err(FinishDepositError::TransferCall(e)),
                    Ok(c3) => Ok(c3),
                }
            },
        },
    }
}

impl ConnectorState {
    /// Completes a deposit; returns the transfer call it made, if any.
    pub fn finish_deposit(
        &mut self,
        predecessor_account_id: &Vec<u8>,
        current_account_id: &Vec<u8>,
        args: &crate::transaction::FinishDepositCallArgs,
        prepaid_gas: u64,
    ) -> (r: Result<Option<PromiseWithCallbackArgs>, FinishDepositError>)
        requires
            old(self).wf(),
            predecessor_account_id@.len() <= u32::MAX,
            args.msg is Some ==> args.msg.unwrap().receiver_id@.len() <= u32::MAX
                && args.msg.unwrap().msg@.len() <= u32::MAX,
        ensures
            final(self).wf(),
            match finish_deposit_spec(old(self)@, predecessor_account_id@, current_account_id@, *args) {
                Ok(c) => r is Ok && final(self)@ == c && match args.msg {
                    None => r.unwrap() is None,
                    Some(m) => r.unwrap() is Some && r.unwrap().unwrap()@ == transfer_call_promise(
                        predecessor_account_id@,
                        current_account_id@,
                        m.receiver_id@,
                        m.amount,
                        m.msg@,
                        prepaid_gas,
                    ),
                },
                Err(e) => r == Err::<Option<PromiseWithCallbackArgs>, _>(e),
            },
    {
        match &args.msg {
            None => {
                if args.fee > args.amount {
                    return Err(FinishDepositError::TransferCall(FtTransferCallError::InsufficientAmountForFee));
                }
                if let Err(e) = self.mint_eth_on_near(args.new_owner_id.as_slice(), args.amount - args.fee) {
                    return Err(FinishDepositError::TransferCall(FtTransferCallError::Transfer(e)));
                }
                if let Err(e) = self.mint_eth_on_near(args.relayer_id.as_slice(), args.fee) {
                    return Err(FinishDepositError::TransferCall(FtTransferCallError::Transfer(e)));
                }
                if self.record_proof(&args.proof_key).is_err() {
                    return Err(FinishDepositError::ProofUsed);
                }
                Ok(None)
            },
            Some(m) => {
                if let Err(e) = self.mint_eth_on_near(args.new_owner_id.as_slice(), args.amount) {
                    return Err(FinishDepositError::TransferCall(FtTransferCallError::Transfer(e)));
                }
                if self.record_proof(&args.proof_key).is_err() {
                    return Err(FinishDepositError::ProofUsed);
                }
                match self.ft_transfer_call(predecessor_account_id, current_account_id, m, prepaid_gas) {
                    Err(e) => Err(FinishDepositError::TransferCall(e)),
                    Ok(p) => Ok(Some(p)),
                }
            },
        }
    }
}

/// A deposit proof of the external chain.
#[derive(Debug, Clone)]
pub struct Proof {
    pub log_index: u64,
    pub log_entry_data: Vec<u8>,
    pub receipt_index: u64,
    pub receipt_data: Vec<u8>,
    pub header_data: Vec<u8>,
    pub proof: Vec<Vec<u8>>,
}

/// The decimal digits of a byte, without leading zeros.
pub open spec fn decimal_digits(b: u8) -> Seq<u8> {
    if b >= 100 {
        seq![(48 + b / 100) as u8, (48 + (b / 10) % 10) as u8, (48 + b % 10) as u8]
    } else if b >= 10 {
        seq![(48 + b / 10) as u8, (48 + b % 10) as u8]
    } else {
        seq![(48 + b) as u8]
    }
}

/// The decimal digits of each byte of `s`, one after the other.
pub open spec fn decimal_concat(s: Seq<u8>) -> Seq<u8>
    decreases s.len(),
{
    if s.len() == 0 {
        Seq::empty()
    } else {
        decimal_concat(s.drop_last()) + decimal_digits(s.last())
    }
}

/// The key under which a proof is recorded as used: the SHA-256 digest of its log index,
/// receipt index (each eight little-endian bytes) and header data, written as the decimal
/// value of each digest byte in turn.
pub open spec fn proof_key_spec(log_index: u64, receipt_index: u64, header_data: Seq<u8>) -> Seq<u8> {
    decimal_concat(
        crate::crypto::sha256_of(
            le_bytes(log_index as nat, 8) + le_bytes(receipt_index as nat, 8) + header_data,
        ),
    )
}

/// The key under which a proof is recorded as used.
pub fn proof_key(proof: &Proof) -> (r: Vec<u8>)
    ensures
        r@.len() <= 96,
        r@ == proof_key_spec(proof.log_index, proof.receipt_index, proof.header_data@),
{
    let mut data: Vec<u8> = Vec::new();
    crate::codec::put_le(&mut data, proof.log_index as u128, 8);
    crate::codec::put_le(&mut data, proof.receipt_index as u128, 8);
    crate::codec::put_bytes(&mut data, proof.header_data.as_slice());
    assert(data@ =~= le_bytes(proof.log_index as nat, 8) + le_bytes(proof.receipt_index as nat, 8) + proof.header_data@);
    let digest = crate::crypto::sha256(data.as_slice());
    let mut out: Vec<u8> = Vec::new();
    let mut i: usize = 0;
    while i < digest.len()
        invariant
            i <= digest@.len(),
            digest@.len() == 32,
            out@.len() <= 3 * i,
            out@ == decimal_concat(digest@.subrange(0, i as int)),
        decreases digest@.len() - i,
    {
        let b = digest[i];
        if b >= 100 {
            out.push(48u8 + b / 100);
            out.push(48u8 + (b / 10) % 10);
            out.push(48u8 + b % 10);
        } else if b >= 10 {
            out.push(48u8 + b / 10);
            out.push(48u8 + b % 10);
        } else {
            out.push(48u8 + b);
        }
        assert(digest@.subrange(0, i + 1).drop_last() =~= digest@.subrange(0, i as int));
        i = i + 1;
        assert(out@ =~= decimal_concat(digest@.subrange(0, i as int)));
    }
    assert(digest@.subrange(0, i as int) =~= digest@);
    out
}

} // verus!
