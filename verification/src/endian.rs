//! Big- and little-endian byte layouts of unsigned integers.
use vstd::prelude::*;

verus! {

/// The `n` low bytes of `x`, most significant first.
pub open spec fn be_seq(x: u128, n: nat) -> Seq<u8> {
    Seq::new(n, |i: int| (x >> ((8 * (n - 1 - i)) as u128)) as u8)
}

/// The `n` low bytes of `x`, least significant first.
pub open spec fn le_seq(x: u128, n: nat) -> Seq<u8> {
    Seq::new(n, |i: int| (x >> ((8 * i) as u128)) as u8)
}

/// `x` fits in `n` bytes.
pub open spec fn fits_bytes(x: u128, n: nat) -> bool {
    n >= 16 || x < (1u128 << ((8 * n) as u128))
}

proof fn lemma_push_byte(acc: u128, b: u8, k: u128)
    requires
        acc < (1u128 << 120u128),
        8 <= k <= 120,
    ensures
        (((acc << 8u128) | (b as u128)) >> k) as u8 == (acc >> ((k - 8) as u128)) as u8,
{
    assert((((acc << 8u128) | (b as u128)) >> k) as u8 == (acc >> ((k - 8) as u128)) as u8)
        by (bit_vector)
        requires
            acc < (1u128 << 120u128),
            8 <= k <= 120,
    ;
}

proof fn lemma_push_byte_low(acc: u128, b: u8)
    requires
        acc < (1u128 << 120u128),
    ensures
        (((acc << 8u128) | (b as u128)) >> 0u128) as u8 == b,
{
    assert((((acc << 8u128) | (b as u128)) >> 0u128) as u8 == b) by (bit_vector)
        requires
            acc < (1u128 << 120u128),
    ;
}

proof fn lemma_push_bound(acc: u128, b: u8, i: u128)
    requires
        i < 16,
        acc < (1u128 << (8 * i)),
    ensures
        i + 1 >= 16 || ((acc << 8u128) | (b as u128)) < (1u128 << (8 * (i + 1))),
        acc < (1u128 << 120u128),
{
    assert(i + 1 >= 16 || ((acc << 8u128) | (b as u128)) < (1u128 << (8 * (i + 1))))
        by (bit_vector)
        requires
            i < 16,
            acc < (1u128 << (8 * i)),
    ;
    assert(acc < (1u128 << 120u128)) by (bit_vector)
        requires
            i < 16,
            acc < (1u128 << (8 * i)),
    ;
}

/// Reads `n` bytes at `off` as a big-endian number.
pub fn read_be(buf: &[u8], off: usize, n: usize) -> (r: u128)
    requires
        1 <= n <= 16,
        off + n <= buf@.len(),
    ensures
        be_seq(r, n as nat) == buf@.subrange(off as int, off + n),
        fits_bytes(r, n as nat),
{
    let len = buf.len();
    let mut acc: u128 = 0;
    let mut i: usize = 0;
    assert((0u128 < (1u128 << 0u128))) by (bit_vector);
    while i < n
        invariant
            1 <= n <= 16,
            off + n <= buf@.len(),
            len == buf@.len(),
            i <= n,
            i >= 16 || acc < (1u128 << ((8 * i) as u128)),
            forall|j: int|
                0 <= j < i ==> (acc >> ((8 * (i - 1 - j)) as u128)) as u8 == #[trigger] buf@[off + j],
        decreases n - i,
    {
        let b = buf[off + i];
        proof {
            lemma_push_bound(acc, b, i as u128);
            lemma_push_byte_low(acc, b);
            assert forall|j: int| 0 <= j < i + 1 implies (((acc << 8u128) | (b as u128)) >> ((8
                * (i + 1 - 1 - j)) as u128)) as u8 == #[trigger] buf@[off + j] by {
                if j < i {
                    lemma_push_byte(acc, b, (8 * (i - j)) as u128);
                }
            }
        }
        acc = (acc << 8u32) | (b as u128);
        i = i + 1;
    }
    assert forall|j: int| 0 <= j < n implies #[trigger] be_seq(acc, n as nat)[j] == buf@.subrange(
        off as int,
        off + n,
    )[j] by {
        assert((acc >> ((8 * (i - 1 - j)) as u128)) as u8 == buf@[off + j]);
    }
    assert(be_seq(acc, n as nat) =~= buf@.subrange(off as int, off + n));
    acc
}

/// `s` with the bytes from `off` on replaced by `t`.
pub open spec fn splice(s: Seq<u8>, off: int, t: Seq<u8>) -> Seq<u8> {
    s.take(off) + t + s.skip(off + t.len())
}

/// Writes the `n` low bytes of `x` at `off`, most significant first.
pub fn write_be(x: u128, n: usize, buf: &mut [u8], off: usize)
    requires
        n <= 16,
        off + n <= old(buf)@.len(),
    ensures
        final(buf)@ == splice(old(buf)@, off as int, be_seq(x, n as nat)),
{
    let ghost orig = buf@;
    let len = buf.len();
    let mut i: usize = 0;
    while i < n
        invariant
            len == orig.len(),
            n <= 16,
            off + n <= orig.len(),
            buf@.len() == orig.len(),
            i <= n,
            forall|j: int| 0 <= j < off ==> buf@[j] == orig[j],
            forall|j: int| off + n <= j < orig.len() ==> buf@[j] == orig[j],
            forall|j: int| 0 <= j < i ==> buf@[off + j] == be_seq(x, n as nat)[j],
        decreases n - i,
    {
        let sh: u32 = (8 * (n - 1 - i)) as u32;
        buf[off + i] = (x >> sh) as u8;
        i = i + 1;
    }
    assert(buf@ =~= splice(orig, off as int, be_seq(x, n as nat)));
}

/// Writes the `n` low bytes of `x` at `off`, least significant first.
pub fn write_le(x: u128, n: usize, buf: &mut [u8], off: usize)
    requires
        n <= 16,
        off + n <= old(buf)@.len(),
    ensures
        final(buf)@ == splice(old(buf)@, off as int, le_seq(x, n as nat)),
{
    let ghost orig = buf@;
    let len = buf.len();
    let mut i: usize = 0;
    while i < n
        invariant
            len == orig.len(),
            n <= 16,
            off + n <= orig.len(),
            buf@.len() == orig.len(),
            i <= n,
            forall|j: int| 0 <= j < off ==> buf@[j] == orig[j],
            forall|j: int| off + n <= j < orig.len() ==> buf@[j] == orig[j],
            forall|j: int| 0 <= j < i ==> buf@[off + j] == le_seq(x, n as nat)[j],
        decreases n - i,
    {
        let sh: u32 = (8 * i) as u32;
        buf[off + i] = (x >> sh) as u8;
        i = i + 1;
    }
    assert(buf@ =~= splice(orig, off as int, le_seq(x, n as nat)));
}

/// Reads `n` bytes at `off` as a little-endian number.
pub fn read_le(buf: &[u8], off: usize, n: usize) -> (r: u128)
    requires
        1 <= n <= 16,
        off + n <= buf@.len(),
    ensures
        le_seq(r, n as nat) == buf@.subrange(off as int, off + n),
        fits_bytes(r, n as nat),
{
    let len = buf.len();
    let mut acc: u128 = 0;
    let mut i: usize = 0;
    assert((0u128 < (1u128 << 0u128))) by (bit_vector);
    while i < n
        invariant
            1 <= n <= 16,
            off + n <= buf@.len(),
            len == buf@.len(),
            i <= n,
            i >= 16 || acc < (1u128 << ((8 * i) as u128)),
            forall|j: int|
                0 <= j < i ==> (acc >> ((8 * (i - 1 - j)) as u128)) as u8 == #[trigger] buf@[off
                    + n - 1 - j],
        decreases n - i,
    {
        let b = buf[off + n - 1 - i];
        proof {
            lemma_push_bound(acc, b, i as u128);
            lemma_push_byte_low(acc, b);
            assert forall|j: int| 0 <= j < i + 1 implies (((acc << 8u128) | (b as u128)) >> ((8
                * (i + 1 - 1 - j)) as u128)) as u8 == #[trigger] buf@[off + n - 1 - j] by {
                if j < i {
                    lemma_push_byte(acc, b, (8 * (i - j)) as u128);
                }
            }
        }
        acc = (acc << 8u32) | (b as u128);
        i = i + 1;
    }
    assert forall|j: int| 0 <= j < n implies #[trigger] le_seq(acc, n as nat)[j] == buf@.subrange(
        off as int,
        off + n,
    )[j] by {
        let jj = n - 1 - j;
        assert((acc >> ((8 * (i - 1 - jj)) as u128)) as u8 == buf@[off + n - 1 - jj]);
    }
    assert(le_seq(acc, n as nat) =~= buf@.subrange(off as int, off + n));
    acc
}

/// Sixteen big-endian bytes determine a 128-bit number.
pub proof fn lemma_be16_injective(x: u128, y: u128)
    requires
        be_seq(x, 16) == be_seq(y, 16),
    ensures
        x == y,
{
    let a = be_seq(x, 16);
    let b = be_seq(y, 16);
    assert(a[0] == b[0] && a[1] == b[1] && a[2] == b[2] && a[3] == b[3] && a[4] == b[4] && a[5]
        == b[5] && a[6] == b[6] && a[7] == b[7] && a[8] == b[8] && a[9] == b[9] && a[10] == b[10]
        && a[11] == b[11] && a[12] == b[12] && a[13] == b[13] && a[14] == b[14] && a[15] == b[15]);
    assert(x == y) by (bit_vector)
        requires
            (x >> 120u128) as u8 == (y >> 120u128) as u8,
            (x >> 112u128) as u8 == (y >> 112u128) as u8,
            (x >> 104u128) as u8 == (y >> 104u128) as u8,
            (x >> 96u128) as u8 == (y >> 96u128) as u8,
            (x >> 88u128) as u8 == (y >> 88u128) as u8,
            (x >> 80u128) as u8 == (y >> 80u128) as u8,
            (x >> 72u128) as u8 == (y >> 72u128) as u8,
            (x >> 64u128) as u8 == (y >> 64u128) as u8,
            (x >> 56u128) as u8 == (y >> 56u128) as u8,
            (x >> 48u128) as u8 == (y >> 48u128) as u8,
            (x >> 40u128) as u8 == (y >> 40u128) as u8,
            (x >> 32u128) as u8 == (y >> 32u128) as u8,
            (x >> 24u128) as u8 == (y >> 24u128) as u8,
            (x >> 16u128) as u8 == (y >> 16u128) as u8,
            (x >> 8u128) as u8 == (y >> 8u128) as u8,
            (x >> 0u128) as u8 == (y >> 0u128) as u8,
    ;
}


proof fn lemma_high_byte_zero(x: u128, m: u128, k: u128)
    requires
        m < 128,
        x < (1u128 << m),
        m <= k < 128,
    ensures
        (x >> k) as u8 == 0,
{
    assert((x >> k) as u8 == 0) by (bit_vector)
        requires
            m < 128,
            x < (1u128 << m),
            m <= k < 128,
    ;
}

/// A number that fits in `n` bytes is determined by its `n` big-endian bytes.
pub proof fn lemma_be_injective(x: u128, y: u128, n: nat)
    requires
        1 <= n <= 16,
        fits_bytes(x, n),
        fits_bytes(y, n),
        be_seq(x, n) == be_seq(y, n),
    ensures
        x == y,
{
    let a = be_seq(x, 16);
    let b = be_seq(y, 16);
    assert forall|i: int| 0 <= i < 16 implies a[i] == b[i] by {
        let k = (8 * (16 - 1 - i)) as u128;
        assert(a[i] == (x >> k) as u8);
        assert(b[i] == (y >> k) as u8);
        if i < 16 - n {
            lemma_high_byte_zero(x, (8 * n) as u128, k);
            lemma_high_byte_zero(y, (8 * n) as u128, k);
        } else {
            let j = i - (16 - n);
            assert(be_seq(x, n)[j] == (x >> k) as u8);
            assert(be_seq(y, n)[j] == (y >> k) as u8);
        }
    }
    assert(a =~= b);
    lemma_be16_injective(x, y);
}

/// Reversing a big-endian layout gives the little-endian one.
pub proof fn lemma_le_is_reversed_be(x: u128, n: nat)
    ensures
        le_seq(x, n) == be_seq(x, n).reverse(),
{
    assert(le_seq(x, n) =~= be_seq(x, n).reverse());
}

} // verus!
