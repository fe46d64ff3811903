//! Little-endian, length-prefixed byte encoding of engine values: fixed-width
//! integers in little-endian order, byte strings behind a 32-bit length.
use vstd::prelude::*;

verus! {

/// The `n` low-order bytes of `x`, least significant first.
pub open spec fn le_bytes(x: nat, n: nat) -> Seq<u8>
    decreases n,
{
    if n == 0 {
        Seq::empty()
    } else {
        seq![(x % 256) as u8] + le_bytes(x / 256, (n - 1) as nat)
    }
}

/// `le_bytes(x, n)` has `n` bytes.
pub proof fn lemma_le_bytes_len(x: nat, n: nat)
    ensures
        le_bytes(x, n).len() == n,
    decreases n,
{
    if n > 0 {
        lemma_le_bytes_len(x / 256, (n - 1) as nat);
    }
}

/// A byte string behind its length as four little-endian bytes.
pub open spec fn framed(b: Seq<u8>) -> Seq<u8> {
    le_bytes(b.len(), 4) + b
}

/// An optional byte string: a zero byte for none, else a one byte and the framed string.
pub open spec fn framed_option(b: Option<Seq<u8>>) -> Seq<u8> {
    match b {
        None => seq![0u8],
        Some(v) => seq![1u8] + framed(v),
    }
}

/// Appends the `n` low-order bytes of `x`, least significant first.
pub fn put_le(out: &mut Vec<u8>, x: u128, n: usize)
    requires
        n <= 16,
    ensures
        final(out)@ == old(out)@ + le_bytes(x as nat, n as nat),
{
    let mut v: u128 = x;
    let mut i: usize = 0;
    let ghost whole = old(out)@ + le_bytes(x as nat, n as nat);
    while i < n
        invariant
            i <= n,
            whole == out@ + le_bytes(v as nat, (n - i) as nat),
        decreases n - i,
    {
        let ghost before = out@;
        let ghost rest = le_bytes(v as nat, (n - i) as nat);
        out.push((v % 256) as u8);
        v = v / 256;
        i = i + 1;
        assert(before + rest =~= out@ + le_bytes(v as nat, (n - i) as nat));
    }
    assert(le_bytes(v as nat, 0) =~= Seq::<u8>::empty());
    assert(out@ =~= out@ + le_bytes(v as nat, 0));
}

/// The bytes of `x` as `n` bytes, most significant first.
pub open spec fn be_bytes(x: nat, n: nat) -> Seq<u8>
    decreases n,
{
    if n == 0 {
        Seq::empty()
    } else {
        be_bytes(x / 256, (n - 1) as nat).push((x % 256) as u8)
    }
}

/// Appends the `n` low-order bytes of `x`, most significant first.
pub fn put_be(out: &mut Vec<u8>, x: u128, n: usize)
    requires
        n <= 16,
    ensures
        final(out)@ == old(out)@ + be_bytes(x as nat, n as nat),
    decreases n,
{
    if n > 0 {
        put_be(out, x / 256, n - 1);
        out.push((x % 256) as u8);
        assert(out@ =~= old(out)@ + be_bytes(x as nat, n as nat));
    }
}

/// Appends a byte string.
pub fn put_bytes(out: &mut Vec<u8>, b: &[u8])
    ensures
        final(out)@ == old(out)@ + b@,
{
    out.extend_from_slice(b);
    assert(out@ =~= old(out)@ + b@);
}

/// Appends a byte string behind its length as four little-endian bytes.
pub fn put_framed(out: &mut Vec<u8>, b: &[u8])
    requires
        b@.len() <= u32::MAX,
    ensures
        final(out)@ == old(out)@ + framed(b@),
{
    put_le(out, b.len() as u128, 4);
    put_bytes(out, b);
    assert(out@ =~= old(out)@ + framed(b@));
}

/// Whether a byte string's length fits the four-byte frame.
pub open spec fn fits_frame(b: Seq<u8>) -> bool {
    b.len() <= u32::MAX
}

/// Whether an optional byte string's length fits the four-byte frame.
pub open spec fn option_fits_frame(b: Option<Vec<u8>>) -> bool {
    match b {
        None => true,
        Some(v) => fits_frame(v@),
    }
}

/// The view of an optional byte string.
pub open spec fn option_bytes(b: Option<Vec<u8>>) -> Option<Seq<u8>> {
    match b {
        None => None,
        Some(v) => Some(v@),
    }
}

/// An optional integer: a zero byte for none, else a one byte and `n` little-endian bytes.
pub open spec fn le_option(x: Option<u128>, n: nat) -> Seq<u8> {
    match x {
        None => seq![0u8],
        Some(v) => seq![1u8] + le_bytes(v as nat, n),
    }
}

/// An optional flag: a zero byte for none, else a one byte and the flag as one byte.
pub open spec fn bool_option(x: Option<bool>) -> Seq<u8> {
    match x {
        None => seq![0u8],
        Some(v) => seq![1u8, if v { 1u8 } else { 0u8 }],
    }
}

/// Whether a byte string's length fits the four-byte frame.
pub fn frame_fits(b: &Vec<u8>) -> (r: bool)
    ensures
        r == fits_frame(b@),
{
    b.len() as u128 <= u32::MAX as u128
}

/// Whether an optional byte string's length fits the four-byte frame.
pub fn option_frame_fits(b: &Option<Vec<u8>>) -> (r: bool)
    ensures
        r == option_fits_frame(*b),
{
    match b {
        None => true,
        Some(v) => frame_fits(v),
    }
}

/// A copy of a byte string.
pub fn copy_bytes(b: &[u8]) -> (r: Vec<u8>)
    ensures
        r@ == b@,
{
    let mut r: Vec<u8> = Vec::new();
    put_bytes(&mut r, b);
    assert(r@ =~= b@);
    r
}

/// A byte string behind its length as four little-endian bytes.
pub fn framed_vec(b: &[u8]) -> (r: Vec<u8>)
    requires
        b@.len() <= u32::MAX,
    ensures
        r@ == framed(b@),
{
    let mut r: Vec<u8> = Vec::new();
    put_framed(&mut r, b);
    assert(r@ =~= framed(b@));
    r
}

/// Appends an optional byte string: a zero byte for none, else a one byte and the framed string.
pub fn put_framed_option(out: &mut Vec<u8>, b: &Option<Vec<u8>>)
    requires
        option_fits_frame(*b),
    ensures
        final(out)@ == old(out)@ + framed_option(option_bytes(*b)),
{
    match b {
        None => {
            out.push(0u8);
            assert(out@ =~= old(out)@ + framed_option(option_bytes(*b)));
        },
        Some(v) => {
            out.push(1u8);
            put_framed(out, v.as_slice());
            assert(out@ =~= old(out)@ + framed_option(option_bytes(*b)));
        },
    }
}

/// Appends an optional integer: a zero byte for none, else a one byte and `n` little-endian bytes.
pub fn put_le_option(out: &mut Vec<u8>, x: Option<u128>, n: usize)
    requires
        n <= 16,
    ensures
        final(out)@ == old(out)@ + le_option(x, n as nat),
{
    match x {
        None => {
            out.push(0u8);
            assert(out@ =~= old(out)@ + le_option(x, n as nat));
        },
        Some(v) => {
            out.push(1u8);
            put_le(out, v, n);
            assert(out@ =~= old(out)@ + le_option(x, n as nat));
        },
    }
}

/// Appends an optional flag: a zero byte for none, else a one byte and the flag as one byte.
pub fn put_bool_option(out: &mut Vec<u8>, x: Option<bool>)
    ensures
        final(out)@ == old(out)@ + bool_option(x),
{
    match x {
        None => {
            out.push(0u8);
        },
        Some(v) => {
            out.push(1u8);
            out.push(if v { 1u8 } else { 0u8 });
        },
    }
    assert(out@ =~= old(out)@ + bool_option(x));
}

} // verus!
