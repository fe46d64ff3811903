//! The 2048-bit log bloom filter over EVM log addresses and topics.
use vstd::prelude::*;
use crate::crypto::{keccak256, keccak_of};
use crate::evm::ResultLog;
use vstd::arithmetic::power2::{lemma2_to64, lemma_pow2_unfold, pow2};

verus! {

pub const BLOOM_SIZE: usize = 256;

pub const BLOOM_BITS: u32 = 3;

/// A bloom filter of 256 bytes (2048 bits).
#[derive(Debug, Clone)]
pub struct Bloom(pub Vec<u8>);

/// Bits of `x` above the leading zeros.
pub open spec fn bit_length(x: nat) -> nat
    decreases x,
{
    if x == 0 {
        0
    } else {
        1 + bit_length(x / 2)
    }
}

/// Zero for `x <= 1`, else the number of bits of `x`.
pub open spec fn log2_spec(x: nat) -> nat {
    if x <= 1 {
        0
    } else {
        bit_length(x)
    }
}

/// A bloom of 256 zero bytes.
pub open spec fn empty_bloom() -> Seq<u8> {
    Seq::new(256, |i: int| 0u8)
}

/// The bit that the `k`-th pair of bytes of digest `h` selects, as a big-endian number
/// taken modulo 2048.
pub open spec fn bloom_index(h: Seq<u8>, k: int) -> nat {
    ((h[2 * k] as nat * 256 + h[2 * k + 1] as nat) % 2048) as nat
}

/// `b` with bit `index` set, bit 0 being the lowest bit of the last byte.
pub open spec fn set_bit(b: Seq<u8>, index: nat) -> Seq<u8> {
    let pos = 255 - index / 8;
    b.update(pos, b[pos] | (1u8 << ((index % 8) as u8)))
}

/// `b` with the three bits that the digest of `input` selects set.
pub open spec fn accrued(b: Seq<u8>, input: Seq<u8>) -> Seq<u8> {
    let h = keccak_of(input);
    set_bit(set_bit(set_bit(b, bloom_index(h, 0)), bloom_index(h, 1)), bloom_index(h, 2))
}

/// `b` with each of `inputs` accrued, in order.
pub open spec fn accrued_all(b: Seq<u8>, inputs: Seq<Seq<u8>>) -> Seq<u8>
    decreases inputs.len(),
{
    if inputs.len() == 0 {
        b
    } else {
        accrued(accrued_all(b, inputs.drop_last()), inputs.last())
    }
}

/// The bytewise OR of two blooms.
pub open spec fn or_blooms(a: Seq<u8>, b: Seq<u8>) -> Seq<u8> {
    Seq::new(256, |i: int| a[i] | b[i])
}

/// The byte strings that a log feeds into its bloom: its address, then each topic.
pub open spec fn log_inputs(log: ResultLog) -> Seq<Seq<u8>> {
    seq![log.address@] + log.topics@.map_values(|t: Vec<u8>| t@)
}

/// The bloom of one log.
pub open spec fn log_bloom(log: ResultLog) -> Seq<u8> {
    accrued_all(empty_bloom(), log_inputs(log))
}

/// The bloom of a list of logs: the OR of their blooms.
pub open spec fn logs_bloom(logs: Seq<ResultLog>) -> Seq<u8>
    decreases logs.len(),
{
    if logs.len() == 0 {
        empty_bloom()
    } else {
        or_blooms(logs_bloom(logs.drop_last()), log_bloom(logs.last()))
    }
}

/// Zero for `x <= 1`, else the number of bits of `x`.
pub fn log2(x: usize) -> (r: u32)
    ensures
        r as nat == log2_spec(x as nat),
{
    if x <= 1 {
        return 0;
    }
    proof {
        lemma2_to64();
        lemma_bit_length_below(x as nat, 64);
    }
    let mut n: u32 = 0;
    let mut v: usize = x;
    while v > 0
        invariant
            n as nat + bit_length(v as nat) == bit_length(x as nat),
            bit_length(x as nat) <= 64,
        decreases v,
    {
        v = v / 2;
        n = n + 1;
    }
    n
}

proof fn lemma_bit_length_below(x: nat, k: nat)
    requires
        x < pow2(k),
    ensures
        bit_length(x) <= k,
    decreases k,
{
    if x > 0 {
        if k == 0 {
            lemma_pow2_unfold_zero();
        } else {
            lemma_pow2_unfold(k);
            lemma_bit_length_below(x / 2, (k - 1) as nat);
        }
    }
}

proof fn lemma_pow2_unfold_zero()
    ensures
        pow2(0) == 1,
{
    lemma2_to64();
}

/// A bloom with every bit clear.
pub fn zero_bloom() -> (r: Bloom)
    ensures
        r.0@ == empty_bloom(),
{
    let mut b: Vec<u8> = Vec::new();
    let mut i: usize = 0;
    while i < BLOOM_SIZE
        invariant
            i <= BLOOM_SIZE,
            b@ == Seq::new(i as nat, |j: int| 0u8),
        decreases BLOOM_SIZE - i,
    {
        b.push(0u8);
        i = i + 1;
        assert(b@ =~= Seq::new(i as nat, |j: int| 0u8));
    }
    Bloom(b)
}

impl Bloom {
    /// Well formed: exactly 256 bytes.
    pub open spec fn wf(&self) -> bool {
        self.0@.len() == 256
    }

    /// Sets the three bits that the Keccak-256 digest of `input` selects: for each of its
    /// first three pairs of bytes, the big-endian value modulo 2048.
    pub fn accrue(&mut self, input: &[u8])
        requires
            old(self).wf(),
        ensures
            final(self).wf(),
            final(self).0@ == accrued(old(self).0@, input@),
    {
        let bloom_bits: usize = BLOOM_SIZE * 8;
        assert(log2_spec(2048) == 12) by {
            reveal_with_fuel(bit_length, 13);
        }
        let bloom_bytes = (log2(bloom_bits) + 7) / 8;
        let hash = keccak256(input);
        let ghost h = hash@;
        let mut ptr: usize = 0;
        let mut i: u32 = 0;
        while i < BLOOM_BITS
            invariant
                self.wf(),
                hash@ == h,
                h == keccak_of(input@),
                h.len() == 32,
                i <= BLOOM_BITS,
                ptr == 2 * i,
                bloom_bytes == 2,
                bloom_bits == 2048,
                self.0@ == (if i == 0 {
                    old(self).0@
                } else if i == 1 {
                    set_bit(old(self).0@, bloom_index(h, 0))
                } else if i == 2 {
                    set_bit(set_bit(old(self).0@, bloom_index(h, 0)), bloom_index(h, 1))
                } else {
                    accrued(old(self).0@, input@)
                }),
            decreases BLOOM_BITS - i,
        {
            let index: usize = (hash[ptr] as usize * 256 + hash[ptr + 1] as usize) % bloom_bits;
            ptr = ptr + bloom_bytes as usize;
            let pos: usize = BLOOM_SIZE - 1 - index / 8;
            let bit: u8 = 1u8 << ((index % 8) as u8);
            let updated: u8 = self.0[pos] | bit;
            self.0.set(pos, updated);
            i = i + 1;
        }
    }

    /// Merges another bloom into this one, byte by byte.
    pub fn accrue_bloom(&mut self, bloom: &Bloom)
        requires
            old(self).wf(),
            bloom.wf(),
        ensures
            final(self).wf(),
            final(self).0@ == or_blooms(old(self).0@, bloom.0@),
    {
        let mut i: usize = 0;
        while i < BLOOM_SIZE
            invariant
                self.wf(),
                bloom.wf(),
                i <= BLOOM_SIZE,
                forall|j: int| 0 <= j < i ==> self.0@[j] == old(self).0@[j] | bloom.0@[j],
                forall|j: int| i <= j < 256 ==> self.0@[j] == old(self).0@[j],
            decreases BLOOM_SIZE - i,
        {
            let merged: u8 = self.0[i] | bloom.0[i];
            self.0.set(i, merged);
            i = i + 1;
        }
        assert(self.0@ =~= or_blooms(old(self).0@, bloom.0@));
    }
}

/// The bloom of one log: its address and each of its topics accrued into an empty bloom.
pub fn get_log_bloom(log: &ResultLog) -> (r: Bloom)
    ensures
        r.wf(),
        r.0@ == log_bloom(*log),
{
    let mut log_bloom = zero_bloom();
    log_bloom.accrue(log.address.as_slice());
    let ghost inputs = log_inputs(*log);
    assert(inputs.subrange(0, 1).drop_last() =~= Seq::<Seq<u8>>::empty());
    assert(inputs.subrange(0, 1).last() == log.address@);
    assert(accrued_all(empty_bloom(), Seq::empty()) == empty_bloom());
    assert(accrued_all(empty_bloom(), inputs.subrange(0, 1)) == log_bloom.0@);
    let mut i: usize = 0;
    while i < log.topics.len()
        invariant
            log_bloom.wf(),
            i <= log.topics@.len(),
            inputs == log_inputs(*log),
            inputs.len() == log.topics@.len() + 1,
            log_bloom.0@ == accrued_all(empty_bloom(), inputs.subrange(0, i + 1)),
        decreases log.topics@.len() - i,
    {
        log_bloom.accrue(log.topics[i].as_slice());
        i = i + 1;
        assert(inputs.subrange(0, i + 1).drop_last() =~= inputs.subrange(0, i as int));
        assert(inputs[i as int] == log.topics@[i - 1]@);
    }
    assert(inputs.subrange(0, i + 1) =~= inputs);
    log_bloom
}

/// The bloom of a list of logs: the OR of the bloom of each.
pub fn get_logs_bloom(logs: &Vec<ResultLog>) -> (r: Bloom)
    ensures
        r.wf(),
        r.0@ == logs_bloom(logs@),
{
    let mut logs_bloom_acc = zero_bloom();
    let mut i: usize = 0;
    while i < logs.len()
        invariant
            logs_bloom_acc.wf(),
            i <= logs@.len(),
            logs_bloom_acc.0@ == logs_bloom(logs@.subrange(0, i as int)),
        decreases logs@.len() - i,
    {
        assert(logs@.subrange(0, i + 1).drop_last() =~= logs@.subrange(0, i as int));
        let one = get_log_bloom(&logs[i]);
        logs_bloom_acc.accrue_bloom(&one);
        i = i + 1;
    }
    assert(logs@.subrange(0, i as int) =~= logs@);
    logs_bloom_acc
}

} // verus!
