//! Lossy decimal floating-point packing of token amounts and fees.
//!
//! A packed value is a mantissa and a decimal exponent, stored as
//! `mantissa << 5 | exponent`, most significant byte first: five bytes
//! (35-bit mantissa) for amounts, two bytes (11-bit mantissa) for fees.

use vstd::prelude::*;
use crate::bytes::{be_bytes, be_value, lemma_be_round_trip, lemma_pow256_values, push_be, read_be};

verus! {

/// Largest mantissa of a packed amount.
pub const AMOUNT_MANTISSA_MAX: u128 = 0x7_ffff_ffff;

/// Largest mantissa of a packed fee.
pub const FEE_MANTISSA_MAX: u128 = 2047;

/// Largest decimal exponent of a packed value.
pub const EXPONENT_MAX: u32 = 31;

/// Bytes of a packed amount.
pub const PACKED_AMOUNT_BYTES: usize = 5;

/// Bytes of a packed fee.
pub const PACKED_FEE_BYTES: usize = 2;

pub open spec fn pow10(e: nat) -> nat
    decreases e,
{
    if e == 0 {
        1
    } else {
        10 * pow10((e - 1) as nat)
    }
}

/// Mantissa and exponent reached by dividing by ten while the mantissa is too
/// large and the exponent can still grow.
pub open spec fn float_parts(m: nat, e: nat, max_m: nat) -> (nat, nat)
    decreases 31 - e,
{
    if m > max_m && e < 31 {
        float_parts(m / 10, e + 1, max_m)
    } else {
        (m, e)
    }
}

/// The packed word of `x`; a mantissa that still does not fit is clamped.
pub open spec fn packed_word(x: nat, max_m: nat) -> nat {
    let (m, e) = float_parts(x, 0, max_m);
    let m2 = if m > max_m { max_m } else { m };
    m2 * 32 + e
}

/// The amount that a packed word stands for.
pub open spec fn word_value(w: nat) -> nat {
    (w / 32) * pow10(w % 32)
}

pub open spec fn amount_packed(x: nat) -> Seq<u8> {
    be_bytes(packed_word(x, AMOUNT_MANTISSA_MAX as nat), 5)
}

pub open spec fn fee_packed(x: nat) -> Seq<u8> {
    be_bytes(packed_word(x, FEE_MANTISSA_MAX as nat), 2)
}

/// What unpacking a byte run gives: `None` when the amount exceeds 128 bits.
pub open spec fn unpacked(s: Seq<u8>) -> Option<u128> {
    let v = word_value(be_value(s));
    if v <= u128::MAX {
        Some(v as u128)
    } else {
        None
    }
}

/// An amount that packing represents exactly.
pub open spec fn amount_packable(x: nat) -> bool {
    word_value(packed_word(x, AMOUNT_MANTISSA_MAX as nat)) == x
}

/// A fee that packing represents exactly.
pub open spec fn fee_packable(x: nat) -> bool {
    word_value(packed_word(x, FEE_MANTISSA_MAX as nat)) == x
}

proof fn lemma_float_parts_bound(m: nat, e: nat, max_m: nat)
    requires
        e <= 31,
    ensures
        float_parts(m, e, max_m).1 <= 31,
        float_parts(m, e, max_m).0 <= m,
    decreases 31 - e,
{
    if m > max_m && e < 31 {
        lemma_float_parts_bound(m / 10, e + 1, max_m);
    }
}

proof fn lemma_word_parts(x: nat, max_m: nat)
    ensures
        packed_word(x, max_m) / 32 == (if float_parts(x, 0, max_m).0 > max_m { max_m } else {
            float_parts(x, 0, max_m).0
        }),
        packed_word(x, max_m) % 32 == float_parts(x, 0, max_m).1,
        packed_word(x, max_m) < (max_m + 1) * 32,
{
    lemma_float_parts_bound(x, 0, max_m);
}

proof fn lemma_pow10_bound(e: nat)
    requires
        e <= 31,
    ensures
        1 <= pow10(e) <= pow10(31),
        pow10(31) == 10_000_000_000_000_000_000_000_000_000_000,
    decreases 31 - e,
{
    reveal_with_fuel(pow10, 32);
    if e < 31 {
        lemma_pow10_bound(e + 1);
    }
}

/// Packs `x` into a word, exactly as `packed_word` says.
fn pack_word(x: u128, max_m: u128) -> (r: u64)
    requires
        max_m == AMOUNT_MANTISSA_MAX || max_m == FEE_MANTISSA_MAX,
    ensures
        r as nat == packed_word(x as nat, max_m as nat),
{
    let mut m: u128 = x;
    let mut e: u32 = 0;
    while m > max_m && e < EXPONENT_MAX
        invariant
            e <= 31,
            float_parts(m as nat, e as nat, max_m as nat) == float_parts(x as nat, 0, max_m as nat),
        decreases 31 - e,
    {
        m = m / 10;
        e = e + 1;
    }
    let m2: u128 = if m > max_m { max_m } else { m };
    proof {
        lemma_word_parts(x as nat, max_m as nat);
    }
    (m2 as u64) * 32 + (e as u64)
}

/// Packs a token amount into five bytes.
pub fn pack_token_amount(x: u128) -> (r: Vec<u8>)
    ensures
        r@ == amount_packed(x as nat),
{
    let w = pack_word(x, AMOUNT_MANTISSA_MAX);
    proof { lemma_word_parts(x as nat, AMOUNT_MANTISSA_MAX as nat); }
    let mut r: Vec<u8> = Vec::new();
    push_be(&mut r, w as u128, PACKED_AMOUNT_BYTES);
    assert(r@ =~= amount_packed(x as nat));
    r
}

/// Packs a fee into two bytes.
pub fn pack_fee_amount(x: u128) -> (r: Vec<u8>)
    ensures
        r@ == fee_packed(x as nat),
{
    let w = pack_word(x, FEE_MANTISSA_MAX);
    let mut r: Vec<u8> = Vec::new();
    push_be(&mut r, w as u128, PACKED_FEE_BYTES);
    assert(r@ =~= fee_packed(x as nat));
    r
}

/// The amount a packed run of bytes stands for.
fn unpack_word(data: &[u8], off: usize, n: usize) -> (r: Option<u128>)
    requires
        n == 5 || n == 2,
        off + n <= data@.len(),
    ensures
        r == unpacked(data@.subrange(off as int, off + n)),
{
    let w = read_be(data, off, n);
    let ghost s = data@.subrange(off as int, off + n);
    proof {
        crate::bytes::lemma_be_value_bound(s);
        lemma_pow256_values();
    }
    let m: u128 = w / 32;
    let e: u128 = w % 32;
    let mut p: u128 = 1;
    let mut i: u128 = 0;
    proof { lemma_pow10_bound(e as nat); }
    while i < e
        invariant
            i <= e,
            e <= 31,
            p as nat == pow10(i as nat),
        decreases e - i,
    {
        proof { lemma_pow10_bound((i + 1) as nat); }
        p = p * 10;
        i = i + 1;
    }
    if m > u128::MAX / p {
        assert(m * p > u128::MAX) by (nonlinear_arith)
            requires
                m > u128::MAX / p,
                p >= 1,
        ;
        None
    } else {
        assert(m * p <= u128::MAX) by (nonlinear_arith)
            requires
                m <= u128::MAX / p,
                p >= 1,
        ;
        Some(m * p)
    }
}

/// Unpacks five bytes into a token amount; `None` when it exceeds 128 bits.
pub fn unpack_token_amount(data: &[u8]) -> (r: Option<u128>)
    requires
        data@.len() == 5,
    ensures
        r == unpacked(data@),
{
    assert(data@.subrange(0, 5) =~= data@);
    unpack_word(data, 0, 5)
}

/// Unpacks two bytes into a fee; `None` when it exceeds 128 bits.
pub fn unpack_fee_amount(data: &[u8]) -> (r: Option<u128>)
    requires
        data@.len() == 2,
    ensures
        r == unpacked(data@),
{
    assert(data@.subrange(0, 2) =~= data@);
    unpack_word(data, 0, 2)
}

/// Reads a packed amount at `off`.
pub fn read_packed_amount(data: &[u8], off: usize) -> (r: Option<u128>)
    requires
        off + 5 <= data@.len(),
    ensures
        r == unpacked(data@.subrange(off as int, off + 5)),
{
    unpack_word(data, off, 5)
}

/// Reads a packed fee at `off`.
pub fn read_packed_fee(data: &[u8], off: usize) -> (r: Option<u128>)
    requires
        off + 2 <= data@.len(),
    ensures
        r == unpacked(data@.subrange(off as int, off + 2)),
{
    unpack_word(data, off, 2)
}

/// Whether packing represents the amount exactly.
pub fn is_token_amount_packable(x: u128) -> (r: bool)
    ensures
        r == amount_packable(x as nat),
{
    let w = pack_word(x, AMOUNT_MANTISSA_MAX);
    proof { lemma_word_parts(x as nat, AMOUNT_MANTISSA_MAX as nat); lemma_pow256_values(); }
    let mut bytes: Vec<u8> = Vec::new();
    push_be(&mut bytes, w as u128, PACKED_AMOUNT_BYTES);
    proof { lemma_be_round_trip(w as nat, 5); }
    match unpack_token_amount(bytes.as_slice()) {
        Some(v) => v == x,
        None => false,
    }
}

/// Whether packing represents the fee exactly.
pub fn is_fee_amount_packable(x: u128) -> (r: bool)
    ensures
        r == fee_packable(x as nat),
{
    let w = pack_word(x, FEE_MANTISSA_MAX);
    proof { lemma_word_parts(x as nat, FEE_MANTISSA_MAX as nat); lemma_pow256_values(); }
    let mut bytes: Vec<u8> = Vec::new();
    push_be(&mut bytes, w as u128, PACKED_FEE_BYTES);
    proof { lemma_be_round_trip(w as nat, 2); }
    match unpack_fee_amount(bytes.as_slice()) {
        Some(v) => v == x,
        None => false,
    }
}

pub broadcast proof fn lemma_amount_packed_len(x: nat)
    ensures
        #[trigger] amount_packed(x).len() == 5,
{
    crate::bytes::lemma_be_len(packed_word(x, AMOUNT_MANTISSA_MAX as nat), 5);
}

pub broadcast proof fn lemma_fee_packed_len(x: nat)
    ensures
        #[trigger] fee_packed(x).len() == 2,
{
    crate::bytes::lemma_be_len(packed_word(x, FEE_MANTISSA_MAX as nat), 2);
}

pub proof fn lemma_packed_len(x: nat)
    ensures
        amount_packed(x).len() == 5,
        fee_packed(x).len() == 2,
{
    lemma_amount_packed_len(x);
    lemma_fee_packed_len(x);
}

/// Unpacking the packed form of a packable amount gives the amount back.
pub proof fn lemma_amount_round_trip(x: u128)
    requires
        amount_packable(x as nat),
    ensures
        unpacked(amount_packed(x as nat)) == Some(x),
{
    lemma_word_parts(x as nat, AMOUNT_MANTISSA_MAX as nat);
    lemma_pow256_values();
    lemma_be_round_trip(packed_word(x as nat, AMOUNT_MANTISSA_MAX as nat), 5);
}

/// Unpacking the packed form of a packable fee gives the fee back.
pub proof fn lemma_fee_round_trip(x: u128)
    requires
        fee_packable(x as nat),
    ensures
        unpacked(fee_packed(x as nat)) == Some(x),
{
    lemma_word_parts(x as nat, FEE_MANTISSA_MAX as nat);
    lemma_pow256_values();
    lemma_be_round_trip(packed_word(x as nat, FEE_MANTISSA_MAX as nat), 2);
}

} // verus!
