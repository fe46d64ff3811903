//! The block hashchain: a rolling Keccak-256 commitment to every transaction
//! applied in each block, chained from block to block.
use vstd::prelude::*;
use crate::codec::{be_bytes, put_be, put_bytes};
use crate::crypto::{keccak256, keccak_of};

verus! {

/// Why a hashchain operation was refused.
#[derive(Debug, Clone, Copy, PartialEq, Eq, Structural)]
pub enum BlockchainHashchainError {
    /// No hashchain has been started for this engine.
    NotFound,
    /// A transaction names a block before the one being accumulated.
    BlockHeightInThePast,
    /// A move names a block that is not after the one being accumulated.
    BlockHeightIncorrect,
}

/// Thirty-two zero bytes: the accumulator of a block with no transactions.
pub open spec fn zero_word() -> Seq<u8> {
    Seq::new(32, |i: int| 0u8)
}

/// The digest that closes block `height`.
pub open spec fn block_digest(
    chain_id: Seq<u8>,
    account: Seq<u8>,
    height: nat,
    previous: Seq<u8>,
    accumulator: Seq<u8>,
) -> Seq<u8> {
    keccak_of(chain_id + account + be_bytes(height, 8) + previous + accumulator)
}

/// The hashchain after closing the empty blocks `from .. to` in turn, starting from `previous`.
pub open spec fn roll_empty(
    chain_id: Seq<u8>,
    account: Seq<u8>,
    from: nat,
    to: nat,
    previous: Seq<u8>,
) -> Seq<u8>
    decreases to - from,
{
    if from >= to {
        previous
    } else {
        roll_empty(
            chain_id,
            account,
            from + 1,
            to,
            block_digest(chain_id, account, from, previous, zero_word()),
        )
    }
}

/// The digest of one transaction: its method name, input, output and log bloom, in a row.
pub open spec fn tx_digest(method: Seq<u8>, input: Seq<u8>, output: Seq<u8>, bloom: Seq<u8>) -> Seq<u8> {
    keccak_of(method + input + output + bloom)
}

/// The accumulator after folding in the transaction digests `txs`, in order.
pub open spec fn accumulate(accumulator: Seq<u8>, txs: Seq<Seq<u8>>) -> Seq<u8>
    decreases txs.len(),
{
    if txs.len() == 0 {
        accumulator
    } else {
        keccak_of(accumulate(accumulator, txs.drop_last()) + txs.last())
    }
}

/// Per-engine hashchain state.
#[derive(Debug, Clone)]
pub struct BlockchainHashchain {
    pub chain_id: Vec<u8>,
    pub contract_account_id: Vec<u8>,
    /// The block whose transactions are being accumulated.
    pub current_block_height: u64,
    /// The hashchain as it stood at the close of the block before the current one.
    pub previous_block_hashchain: Vec<u8>,
    /// The rolling digest of the current block's transactions.
    pub current_block_accumulator: Vec<u8>,
}

/// The hashchain fields as values.
pub struct HashchainView {
    pub chain_id: Seq<u8>,
    pub account: Seq<u8>,
    pub height: nat,
    pub previous: Seq<u8>,
    pub accumulator: Seq<u8>,
}

impl View for BlockchainHashchain {
    type V = HashchainView;

    open spec fn view(&self) -> HashchainView {
        HashchainView {
            chain_id: self.chain_id@,
            account: self.contract_account_id@,
            height: self.current_block_height as nat,
            previous: self.previous_block_hashchain@,
            accumulator: self.current_block_accumulator@,
        }
    }
}

/// The hashchain fields after moving from `h` to block `new_height`: the current block is
/// closed, the empty blocks in between are closed in turn, and the accumulator starts afresh.
pub open spec fn moved(h: HashchainView, new_height: nat) -> HashchainView {
    HashchainView {
        chain_id: h.chain_id,
        account: h.account,
        height: new_height,
        previous: roll_empty(
            h.chain_id,
            h.account,
            h.height + 1,
            new_height,
            block_digest(h.chain_id, h.account, h.height, h.previous, h.accumulator),
        ),
        accumulator: zero_word(),
    }
}

/// The hashchain fields after adding one transaction at block `height` (not before `h.height`).
pub open spec fn added(h: HashchainView, height: nat, digest: Seq<u8>) -> HashchainView {
    let base = if height > h.height { moved(h, height) } else { h };
    HashchainView { accumulator: keccak_of(base.accumulator + digest), ..base }
}

/// Closing the empty blocks `from .. to` is closing `from .. mid`, then `mid .. to`.
pub proof fn lemma_roll_split(
    chain_id: Seq<u8>,
    account: Seq<u8>,
    from: nat,
    mid: nat,
    to: nat,
    previous: Seq<u8>,
)
    requires
        from <= mid <= to,
    ensures
        roll_empty(chain_id, account, from, to, previous) == roll_empty(
            chain_id,
            account,
            mid,
            to,
            roll_empty(chain_id, account, from, mid, previous),
        ),
    decreases mid - from,
{
    if from < mid {
        lemma_roll_split(
            chain_id,
            account,
            from + 1,
            mid,
            to,
            block_digest(chain_id, account, from, previous, zero_word()),
        );
    }
}

/// Moving the hashchain to block `h1` and then to a later block `h2` leaves it exactly as
/// one move to `h2` does: an empty block closes the same way whether it is skipped over or
/// moved through.
pub proof fn lemma_move_to_block_twice(h: HashchainView, h1: nat, h2: nat)
    requires
        h.height < h1 < h2,
    ensures
        moved(moved(h, h1), h2) == moved(h, h2),
{
    let first = block_digest(h.chain_id, h.account, h.height, h.previous, h.accumulator);
    lemma_roll_split(h.chain_id, h.account, h.height + 1, h1, h2, first);
}

/// The hashchain fields after adding the transactions with digests `digests`, in order, all
/// at block `height`.
pub open spec fn added_all(h: HashchainView, height: nat, digests: Seq<Seq<u8>>) -> HashchainView
    decreases digests.len(),
{
    if digests.len() == 0 {
        h
    } else {
        added(added_all(h, height, digests.drop_last()), height, digests.last())
    }
}

/// Within the current block, the accumulator is the fold of the transaction digests in the
/// order the transactions came, and nothing else changes. Two orders of the same two
/// transactions thus end in `keccak(keccak(a ++ d1) ++ d2)` and `keccak(keccak(a ++ d2) ++ d1)`.
pub proof fn lemma_block_accumulator_is_ordered_fold(h: HashchainView, digests: Seq<Seq<u8>>)
    ensures
        added_all(h, h.height, digests).accumulator == accumulate(h.accumulator, digests),
        added_all(h, h.height, digests).height == h.height,
        added_all(h, h.height, digests).previous == h.previous,
    decreases digests.len(),
{
    if digests.len() > 0 {
        lemma_block_accumulator_is_ordered_fold(h, digests.drop_last());
    }
}

/// Thirty-two zero bytes.
pub fn zero_bytes32() -> (r: Vec<u8>)
    ensures
        r@ == zero_word(),
{
    let mut r: Vec<u8> = Vec::new();
    let mut i: usize = 0;
    while i < 32
        invariant
            i <= 32,
            r@ == Seq::new(i as nat, |j: int| 0u8),
        decreases 32 - i,
    {
        r.push(0u8);
        i = i + 1;
        assert(r@ =~= Seq::new(i as nat, |j: int| 0u8));
    }
    r
}

/// The digest that closes block `height`.
fn close_block(
    chain_id: &Vec<u8>,
    account: &Vec<u8>,
    height: u64,
    previous: &Vec<u8>,
    accumulator: &Vec<u8>,
) -> (r: Vec<u8>)
    ensures
        r@ == block_digest(chain_id@, account@, height as nat, previous@, accumulator@),
{
    let mut data: Vec<u8> = Vec::new();
    put_bytes(&mut data, chain_id.as_slice());
    put_bytes(&mut data, account.as_slice());
    put_be(&mut data, height as u128, 8);
    put_bytes(&mut data, previous.as_slice());
    put_bytes(&mut data, accumulator.as_slice());
    assert(data@ =~= chain_id@ + account@ + be_bytes(height as nat, 8) + previous@ + accumulator@);
    keccak256(data.as_slice())
}

impl BlockchainHashchain {
    /// A hashchain whose current block is `block_height`, following `previous_block_hashchain`,
    /// with no transaction accumulated yet.
    pub fn new(
        chain_id: Vec<u8>,
        contract_account_id: Vec<u8>,
        block_height: u64,
        previous_block_hashchain: Vec<u8>,
    ) -> (r: Self)
        ensures
            r@ == (HashchainView {
                chain_id: chain_id@,
                account: contract_account_id@,
                height: block_height as nat,
                previous: previous_block_hashchain@,
                accumulator: zero_word(),
            }),
    {
        BlockchainHashchain {
            chain_id,
            contract_account_id,
            current_block_height: block_height,
            previous_block_hashchain,
            current_block_accumulator: zero_bytes32(),
        }
    }

    /// The block whose transactions are being accumulated.
    pub fn get_current_block_height(&self) -> (r: u64)
        ensures
            r == self.current_block_height,
    {
        self.current_block_height
    }

    /// The hashchain as it stood at the close of the block before the current one.
    pub fn get_previous_block_hashchain(&self) -> (r: &Vec<u8>)
        ensures
            r@ == self.previous_block_hashchain@,
    {
        &self.previous_block_hashchain
    }

    /// Closes the current block and the empty blocks up to `next_block_height`, which becomes
    /// the current block. Fails, changing nothing, unless `next_block_height` is later.
    pub fn move_to_block(&mut self, next_block_height: u64) -> (r: Result<(), BlockchainHashchainError>)
        ensures
            next_block_height > old(self).current_block_height ==> r is Ok && final(self)@ == moved(
                old(self)@,
                next_block_height as nat,
            ),
            next_block_height <= old(self).current_block_height ==> r == Err::<(), _>(
                BlockchainHashchainError::BlockHeightIncorrect,
            ) && *final(self) == *old(self),
    {
        if next_block_height <= self.current_block_height {
            return Err(BlockchainHashchainError::BlockHeightIncorrect);
        }
        let ghost h0 = self@;
        let zero = zero_bytes32();
        let mut previous = close_block(
            &self.chain_id,
            &self.contract_account_id,
            self.current_block_height,
            &self.previous_block_hashchain,
            &self.current_block_accumulator,
        );
        let mut height: u64 = self.current_block_height + 1;
        while height < next_block_height
            invariant
                self@ == h0,
                h0.height < height <= next_block_height,
                zero@ == zero_word(),
                roll_empty(h0.chain_id, h0.account, height as nat, next_block_height as nat, previous@)
                    == moved(h0, next_block_height as nat).previous,
            decreases next_block_height - height,
        {
            previous = close_block(&self.chain_id, &self.contract_account_id, height, &previous, &zero);
            height = height + 1;
        }
        self.previous_block_hashchain = previous;
        self.current_block_accumulator = zero;
        self.current_block_height = next_block_height;
        Ok(())
    }

    /// Folds one transaction, given by its method name, input, output and log bloom, into the
    /// accumulator of block `block_height`, first moving to that block if it is later than the
    /// current one. Fails, changing nothing, if `block_height` is before the current block.
    pub fn add_block_tx(
        &mut self,
        block_height: u64,
        method_name: &[u8],
        input: &[u8],
        output: &[u8],
        log_bloom: &[u8],
    ) -> (r: Result<(), BlockchainHashchainError>)
        ensures
            block_height >= old(self).current_block_height ==> r is Ok && final(self)@ == added(
                old(self)@,
                block_height as nat,
                tx_digest(method_name@, input@, output@, log_bloom@),
            ),
            block_height < old(self).current_block_height ==> r == Err::<(), _>(
                BlockchainHashchainError::BlockHeightInThePast,
            ) && *final(self) == *old(self),
    {
        if block_height < self.current_block_height {
            return Err(BlockchainHashchainError::BlockHeightInThePast);
        }
        if block_height > self.current_block_height {
            self.move_to_block(block_height)?;
        }
        let mut data: Vec<u8> = Vec::new();
        put_bytes(&mut data, method_name);
        put_bytes(&mut data, input);
        put_bytes(&mut data, output);
        put_bytes(&mut data, log_bloom);
        assert(data@ =~= method_name@ + input@ + output@ + log_bloom@);
        let tx_hash = keccak256(data.as_slice());
        let mut acc: Vec<u8> = Vec::new();
        put_bytes(&mut acc, self.current_block_accumulator.as_slice());
        put_bytes(&mut acc, tx_hash.as_slice());
        self.current_block_accumulator = keccak256(acc.as_slice());
        Ok(())
    }
}

} // verus!
