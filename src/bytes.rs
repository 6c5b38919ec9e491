//! Big-endian fixed-width integer fields and raw byte runs.

use vstd::prelude::*;

verus! {

/// 256 to the power `n`.
pub open spec fn pow256(n: nat) -> nat
    decreases n,
{
    if n == 0 {
        1
    } else {
        256 * pow256((n - 1) as nat)
    }
}

/// The `n` low bytes of `v`, most significant first.
pub open spec fn be_bytes(v: nat, n: nat) -> Seq<u8>
    decreases n,
{
    if n == 0 {
        Seq::empty()
    } else {
        be_bytes(v / 256, (n - 1) as nat).push((v % 256) as u8)
    }
}

/// The number that a byte run denotes, most significant byte first.
pub open spec fn be_value(s: Seq<u8>) -> nat
    decreases s.len(),
{
    if s.len() == 0 {
        0
    } else {
        be_value(s.drop_last()) * 256 + s.last() as nat
    }
}

pub proof fn lemma_pow256_pos(n: nat)
    ensures
        pow256(n) >= 1,
    decreases n,
{
    if n > 0 {
        lemma_pow256_pos((n - 1) as nat);
    }
}

pub proof fn lemma_pow256_values()
    ensures
        pow256(1) == 256,
        pow256(2) == 0x1_0000,
        pow256(4) == 0x1_0000_0000,
        pow256(5) == 0x100_0000_0000,
        pow256(8) == 0x1_0000_0000_0000_0000,
        pow256(16) == 0x1_0000_0000_0000_0000_0000_0000_0000_0000,
{
    reveal_with_fuel(pow256, 17);
}

/// A byte run denotes a number below 256 to the power of its length.
pub proof fn lemma_be_value_bound(s: Seq<u8>)
    ensures
        be_value(s) < pow256(s.len()),
    decreases s.len(),
{
    if s.len() > 0 {
        lemma_be_value_bound(s.drop_last());
        let p = pow256((s.len() - 1) as nat);
        assert(be_value(s.drop_last()) + 1 <= p);
        assert((be_value(s.drop_last()) + 1) * 256 <= p * 256) by (nonlinear_arith)
            requires
                be_value(s.drop_last()) + 1 <= p,
        ;
    }
}

/// Reading back the bytes of a number that fits gives the number.
pub proof fn lemma_be_round_trip(v: nat, n: nat)
    requires
        v < pow256(n),
    ensures
        be_bytes(v, n).len() == n,
        be_value(be_bytes(v, n)) == v,
    decreases n,
{
    if n > 0 {
        let p = pow256((n - 1) as nat);
        assert(v / 256 < p) by (nonlinear_arith)
            requires
                v < 256 * p,
        ;
        lemma_be_round_trip(v / 256, (n - 1) as nat);
        let s = be_bytes(v, n);
        assert(s.drop_last() =~= be_bytes(v / 256, (n - 1) as nat));
    }
}

pub broadcast proof fn lemma_be_len(v: nat, n: nat)
    ensures
        #[trigger] be_bytes(v, n).len() == n,
    decreases n,
{
    if n > 0 {
        lemma_be_len(v / 256, (n - 1) as nat);
    }
}

/// `s` followed by zero bytes up to length `n`.
pub open spec fn padded(s: Seq<u8>, n: nat) -> Seq<u8> {
    s + Seq::new((n - s.len()) as nat, |i: int| 0u8)
}

/// Reads a four-byte big-endian number at `off`.
pub fn read_u32(data: &[u8], off: usize) -> (r: u32)
    requires
        off + 4 <= data@.len(),
    ensures
        r as nat == be_value(data@.subrange(off as int, off + 4)),
{
    let v = read_be(data, off, 4);
    proof {
        lemma_be_value_bound(data@.subrange(off as int, off + 4));
        lemma_pow256_values();
    }
    v as u32
}

/// Reads a two-byte big-endian number at `off`.
pub fn read_u16(data: &[u8], off: usize) -> (r: u16)
    requires
        off + 2 <= data@.len(),
    ensures
        r as nat == be_value(data@.subrange(off as int, off + 2)),
{
    let v = read_be(data, off, 2);
    proof {
        lemma_be_value_bound(data@.subrange(off as int, off + 2));
        lemma_pow256_values();
    }
    v as u16
}

/// Appends the `n` low bytes of `v`, most significant first.
pub fn push_be(data: &mut Vec<u8>, v: u128, n: usize)
    requires
        n <= 16,
    ensures
        final(data)@ == old(data)@ + be_bytes(v as nat, n as nat),
    decreases n,
{
    if n > 0 {
        push_be(data, v / 256, n - 1);
        let b = (v % 256) as u8;
        data.push(b);
        assert(final(data)@ =~= old(data)@ + be_bytes(v as nat, n as nat));
    } else {
        assert(data@ =~= old(data)@ + be_bytes(v as nat, n as nat));
    }
}

/// Reads `n` bytes at `off` as a big-endian number.
pub fn read_be(data: &[u8], off: usize, n: usize) -> (r: u128)
    requires
        n <= 16,
        off + n <= data@.len(),
    ensures
        r as nat == be_value(data@.subrange(off as int, off + n)),
{
    let mut acc: u128 = 0;
    let mut i: usize = off;
    let ghost len = data.len();
    let end: usize = off + n;
    while i < end
        invariant
            end == off + n,
            off <= i <= off + n,
            off + n <= data@.len(),
            n <= 16,
            acc as nat == be_value(data@.subrange(off as int, i as int)),
        decreases off + n - i,
    {
        let ghost prev = data@.subrange(off as int, i as int);
        let ghost next = data@.subrange(off as int, i + 1);
        assert(next.drop_last() =~= prev);
        proof {
            lemma_be_value_bound(prev);
            lemma_pow256_values();
            lemma_pow_mono((i - off) as nat, 15);
        }
        assert(acc * 256 + (data[i as int] as nat) < pow256(16)) by (nonlinear_arith)
            requires
                (acc as nat) < pow256((i - off) as nat),
                pow256((i - off) as nat) <= pow256(15),
                pow256(16) == 256 * pow256(15),
                data[i as int] < 256,
        ;
        acc = acc * 256 + data[i] as u128;
        i = i + 1;
    }
    acc
}

pub proof fn lemma_pow_mono(a: nat, b: nat)
    requires
        a <= b,
    ensures
        pow256(a) <= pow256(b),
    decreases b,
{
    if a < b {
        lemma_pow_mono(a, (b - 1) as nat);
        lemma_pow256_pos((b - 1) as nat);
    }
}

/// Appends a run of bytes.
pub fn push_all(data: &mut Vec<u8>, src: &[u8])
    ensures
        final(data)@ == old(data)@ + src@,
{
    let mut i: usize = 0;
    while i < src.len()
        invariant
            0 <= i <= src@.len(),
            data@ == old(data)@ + src@.subrange(0, i as int),
        decreases src@.len() - i,
    {
        data.push(src[i]);
        i = i + 1;
        assert(data@ =~= old(data)@ + src@.subrange(0, i as int));
    }
    assert(src@.subrange(0, src@.len() as int) =~= src@);
}

/// Copies 20 bytes at `off`.
pub fn read_20(data: &[u8], off: usize) -> (r: [u8; 20])
    requires
        off + 20 <= data@.len(),
    ensures
        r@ == data@.subrange(off as int, off + 20),
{
    let mut r = [0u8; 20];
    let dlen: usize = data.len();
    assert(off + 20 <= dlen);
    let mut i: usize = 0;
    while i < 20
        invariant
            0 <= i <= 20,
            off + 20 <= data@.len(),
            dlen == data@.len(),
            forall|j: int| 0 <= j < i ==> r@[j] == data@[off + j],
        decreases 20 - i,
    {
        r[i] = data[off + i];
        i = i + 1;
    }
    assert(r@ =~= data@.subrange(off as int, off + 20));
    r
}

/// Pads with zero bytes up to `len`.
pub fn pad_to(data: &mut Vec<u8>, len: usize)
    requires
        old(data)@.len() <= len,
    ensures
        final(data)@ == old(data)@ + Seq::new((len - old(data)@.len()) as nat, |i: int| 0u8),
{
    let ghost start = data@;
    while data.len() < len
        invariant
            start.len() <= data@.len() <= len,
            data@ == start + Seq::new((data@.len() - start.len()) as nat, |i: int| 0u8),
        decreases len - data@.len(),
    {
        data.push(0u8);
        assert(data@ =~= start + Seq::new((data@.len() - start.len()) as nat, |i: int| 0u8));
    }
}

} // verus!
