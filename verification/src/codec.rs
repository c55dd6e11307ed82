//! The order codec: the fixed binary payload attached to swap-order cells.
//!
//! An order payload is exactly 24 bytes: bytes `[0,16)` hold the token amount
//! as a little-endian 128-bit integer, bytes `[16,24)` the requested price in
//! the native coin's smallest unit as a little-endian 64-bit integer. A plain
//! token cell's payload is the 16-byte amount alone; for order cells the same
//! 16 bytes are its prefix.

use vstd::prelude::*;

use crate::SwapError;

verus! {

/// The value of a byte sequence read as a little-endian integer.
pub open spec fn le_value(s: Seq<u8>) -> nat
    decreases s.len(),
{
    if s.len() == 0 {
        0
    } else {
        s[0] as nat + 256 * le_value(s.drop_first())
    }
}

/// The `n`-byte little-endian encoding of `v` (of `v % 256^n` if `v` is wider).
pub open spec fn le_bytes(v: nat, n: nat) -> Seq<u8>
    decreases n,
{
    if n == 0 {
        Seq::empty()
    } else {
        seq![(v % 256) as u8] + le_bytes(v / 256, (n - 1) as nat)
    }
}

/// 256 raised to `n`: the number of values an `n`-byte field can hold.
pub open spec fn pow256(n: nat) -> nat
    decreases n,
{
    if n == 0 {
        1
    } else {
        256 * pow256((n - 1) as nat)
    }
}

pub proof fn lemma_le_bytes_len(v: nat, n: nat)
    ensures
        le_bytes(v, n).len() == n,
    decreases n,
{
    if n > 0 {
        lemma_le_bytes_len(v / 256, (n - 1) as nat);
    }
}

/// Bounds for the two field widths the codec uses.
pub proof fn lemma_pow256_widths()
    ensures
        pow256(8) == 0x1_0000_0000_0000_0000nat,
        pow256(15) == 0x1_0000_0000_0000_0000_0000_0000_0000_00nat,
        pow256(16) == 0x1_0000_0000_0000_0000_0000_0000_0000_0000nat,
{
    assert(pow256(0) == 1);
    assert(pow256(1) == 0x100);
    assert(pow256(2) == 0x1_0000);
    assert(pow256(3) == 0x100_0000);
    assert(pow256(4) == 0x1_0000_0000);
    assert(pow256(5) == 0x100_0000_0000);
    assert(pow256(6) == 0x1_0000_0000_0000);
    assert(pow256(7) == 0x100_0000_0000_0000);
    assert(pow256(8) == 0x1_0000_0000_0000_0000);
    assert(pow256(9) == 0x100_0000_0000_0000_0000);
    assert(pow256(10) == 0x1_0000_0000_0000_0000_0000);
    assert(pow256(11) == 0x100_0000_0000_0000_0000_0000);
    assert(pow256(12) == 0x1_0000_0000_0000_0000_0000_0000);
    assert(pow256(13) == 0x100_0000_0000_0000_0000_0000_0000);
    assert(pow256(14) == 0x1_0000_0000_0000_0000_0000_0000_0000);
    assert(pow256(15) == 0x100_0000_0000_0000_0000_0000_0000_0000);
    assert(pow256(16) == 0x1_0000_0000_0000_0000_0000_0000_0000_0000);
}

pub proof fn lemma_pow256_mono(a: nat, b: nat)
    requires
        a <= b,
    ensures
        pow256(a) <= pow256(b),
    decreases b,
{
    if a < b {
        lemma_pow256_mono(a, (b - 1) as nat);
    }
}

/// A little-endian read never exceeds what its width can hold.
pub proof fn lemma_le_value_bound(s: Seq<u8>)
    ensures
        le_value(s) < pow256(s.len()),
    decreases s.len(),
{
    if s.len() > 0 {
        lemma_le_value_bound(s.drop_first());
    }
}

/// Reading back an `n`-byte encoding recovers any value that fits `n` bytes.
pub proof fn lemma_le_value_of_le_bytes(v: nat, n: nat)
    requires
        v < pow256(n),
    ensures
        le_value(le_bytes(v, n)) == v,
    decreases n,
{
    if n > 0 {
        let rest = le_bytes(v / 256, (n - 1) as nat);
        assert((seq![(v % 256) as u8] + rest).drop_first() =~= rest);
        assert(v / 256 < pow256((n - 1) as nat)) by (nonlinear_arith)
            requires
                v < 256 * pow256((n - 1) as nat),
        ;
        lemma_le_value_of_le_bytes(v / 256, (n - 1) as nat);
    }
}

/// Appends the `n`-byte little-endian encoding of `v` to `out`.
pub fn append_le_bytes(out: &mut Vec<u8>, v: u128, n: usize)
    ensures
        final(out)@ == old(out)@ + le_bytes(v as nat, n as nat),
{
    let mut x: u128 = v;
    let mut i: usize = 0;
    while i < n
        invariant
            i <= n,
            out@ + le_bytes(x as nat, (n - i) as nat) == old(out)@ + le_bytes(v as nat, n as nat),
        decreases n - i,
    {
        let b: u8 = (x % 256) as u8;
        proof {
            let rest = le_bytes(x as nat / 256, (n - i - 1) as nat);
            assert(le_bytes(x as nat, (n - i) as nat) =~= seq![b] + rest);
            assert(out@.push(b) + rest =~= out@ + (seq![b] + rest));
        }
        out.push(b);
        x = x / 256;
        i = i + 1;
    }
    proof {
        assert(out@ + le_bytes(x as nat, 0) =~= out@);
    }
}

/// Reads the `n` bytes of `src` at `start` as a little-endian integer.
pub fn read_le(src: &Vec<u8>, start: usize, n: usize) -> (r: u128)
    requires
        start + n <= src@.len(),
        n <= 16,
    ensures
        r as nat == le_value(src@.subrange(start as int, (start + n) as int)),
{
    let mut acc: u128 = 0;
    let mut i: usize = n;
    proof {
        assert(src@.subrange((start + n) as int, (start + n) as int) =~= Seq::<u8>::empty());
    }
    while i > 0
        invariant
            i <= n,
            n <= 16,
            start + n <= src@.len(),
            acc as nat == le_value(src@.subrange((start + i) as int, (start + n) as int)),
        decreases i,
    {
        i = i - 1;
        proof {
            assert(start + i < src.len());
            let s = src@.subrange((start + i) as int, (start + n) as int);
            assert(s.drop_first() =~= src@.subrange((start + i + 1) as int, (start + n) as int));
            lemma_le_value_bound(src@.subrange((start + i + 1) as int, (start + n) as int));
            lemma_pow256_mono((n - i - 1) as nat, 15);
            lemma_pow256_widths();
            assert(pow256((n - i) as nat) == 256 * pow256((n - i - 1) as nat));
            lemma_pow256_mono((n - i) as nat, 16);
        }
        acc = acc * 256 + (src[start + i] as u128);
    }
    acc
}

/// The token amount: the first 16 payload bytes, little-endian.
pub open spec fn spec_token_amount(s: Seq<u8>) -> u128 {
    le_value(s.subrange(0, 16)) as u128
}

/// The requested price: payload bytes `[16,24)`, little-endian.
pub open spec fn spec_order_price(s: Seq<u8>) -> u64 {
    le_value(s.subrange(16, 24)) as u64
}

/// The 24-byte order payload carrying `amount` then `price`.
pub open spec fn spec_encode_order(amount: u128, price: u64) -> Seq<u8> {
    le_bytes(amount as nat, 16) + le_bytes(price as nat, 8)
}

/// Concatenates the little-endian amount and the little-endian price.
/// Always succeeds and always yields exactly 24 bytes.
pub fn encode_order(amount: u128, price: u64) -> (r: Vec<u8>)
    ensures
        r@ == spec_encode_order(amount, price),
        r@.len() == 24,
{
    let mut out: Vec<u8> = Vec::new();
    append_le_bytes(&mut out, amount, 16);
    append_le_bytes(&mut out, price as u128, 8);
    proof {
        lemma_le_bytes_len(amount as nat, 16);
        lemma_le_bytes_len(price as nat, 8);
        assert((Seq::<u8>::empty() + le_bytes(amount as nat, 16)) + le_bytes(price as nat, 8)
            =~= le_bytes(amount as nat, 16) + le_bytes(price as nat, 8));
    }
    out
}

/// Splits a 24-byte order payload into its amount and price; any other
/// length is not an order payload.
pub fn decode_order(payload: &Vec<u8>) -> (r: Result<(u128, u64), SwapError>)
    ensures
        payload@.len() == 24 ==> r == Ok::<_, SwapError>((
            spec_token_amount(payload@),
            spec_order_price(payload@),
        )),
        payload@.len() != 24 ==> r == Err::<(u128, u64), _>(SwapError::MalformedPayload),
{
    if payload.len() != 24 {
        return Err(SwapError::MalformedPayload);
    }
    let amount: u128 = read_le(payload, 0, 16);
    let price_wide: u128 = read_le(payload, 16, 8);
    proof {
        lemma_le_value_bound(payload@.subrange(16, 24));
        lemma_pow256_widths();
    }
    Ok((amount, price_wide as u64))
}

/// Reads the token amount from a payload that starts with the 16-byte
/// amount field: a plain token cell's whole payload, or an order's prefix.
pub fn decode_amount(payload: &Vec<u8>) -> (r: Result<u128, SwapError>)
    ensures
        payload@.len() >= 16 ==> r == Ok::<_, SwapError>(spec_token_amount(payload@)),
        payload@.len() < 16 ==> r == Err::<u128, _>(SwapError::MalformedPayload),
{
    if payload.len() < 16 {
        return Err(SwapError::MalformedPayload);
    }
    Ok(read_le(payload, 0, 16))
}

/// Round-trip law: decoding an encoded order payload yields the pair back,
/// for every representable amount and price.
pub proof fn lemma_order_round_trip(amount: u128, price: u64)
    ensures
        spec_encode_order(amount, price).len() == 24,
        spec_token_amount(spec_encode_order(amount, price)) == amount,
        spec_order_price(spec_encode_order(amount, price)) == price,
{
    lemma_le_bytes_len(amount as nat, 16);
    lemma_le_bytes_len(price as nat, 8);
    lemma_pow256_widths();
    let enc = spec_encode_order(amount, price);
    assert(enc.subrange(0, 16) =~= le_bytes(amount as nat, 16));
    assert(enc.subrange(16, 24) =~= le_bytes(price as nat, 8));
    lemma_le_value_of_le_bytes(amount as nat, 16);
    lemma_le_value_of_le_bytes(price as nat, 8);
}

} // verus!
