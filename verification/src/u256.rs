//! 256-bit unsigned integer built from two 128-bit halves.
use vstd::prelude::*;
use vstd::arithmetic::power2::pow2;
use crate::endian::{be_seq, le_seq, read_be, read_le, write_be, write_le, lemma_be16_injective};

verus! {

/// 2^128 as a natural number.
pub open spec fn two_pow_128() -> nat {
    0x1_0000_0000_0000_0000_0000_0000_0000_0000nat
}

/// 2^256 as a natural number.
pub open spec fn two_pow_256() -> nat {
    two_pow_128() * two_pow_128()
}

/// 256-bit unsigned integer.
#[derive(Clone, Copy, PartialEq, Eq, Structural, Ord, Debug)]
pub struct U256 {
    /// High 128 bits
    pub high: u128,
    /// Low 128 bits
    pub low: u128,
}

impl View for U256 {
    type V = nat;

    /// The number a value stands for.
    open spec fn view(&self) -> nat {
        self.high as nat * two_pow_128() + self.low as nat
    }
}

/// Two values stand for the same number exactly when their halves agree.
pub proof fn lemma_u256_view_injective(a: U256, b: U256)
    ensures
        (a@ == b@) <==> (a == b),
{
    assert(a@ == b@ ==> a.high == b.high) by (nonlinear_arith)
        requires
            a@ == a.high as nat * two_pow_128() + a.low as nat,
            b@ == b.high as nat * two_pow_128() + b.low as nat,
            (a.low as nat) < two_pow_128(),
            (b.low as nat) < two_pow_128(),
    ;
}

/// Every value is below 2^256.
pub proof fn lemma_u256_view_bound(a: U256)
    ensures
        a@ < two_pow_256(),
{
    assert(a@ < two_pow_256()) by (nonlinear_arith)
        requires
            a@ == a.high as nat * two_pow_128() + a.low as nat,
            (a.high as nat) < two_pow_128(),
            (a.low as nat) < two_pow_128(),
            two_pow_256() == two_pow_128() * two_pow_128(),
    ;
}


/// 2^64 as a natural number.
pub open spec fn two_pow_64() -> nat {
    0x1_0000_0000_0000_0000nat
}

/// Full product of two 128-bit numbers as (low half, high half).
fn wide_mul_u128(a: u128, b: u128) -> (r: (u128, u128))
    ensures
        r.1 as nat * two_pow_128() + r.0 as nat == a as nat * b as nat,
{
    let a_lo = a & 0xffff_ffff_ffff_ffff;
    let a_hi = a >> 64u32;
    let b_lo = b & 0xffff_ffff_ffff_ffff;
    let b_hi = b >> 64u32;
    assert(a_lo == a % 0x1_0000_0000_0000_0000 && a_hi == a / 0x1_0000_0000_0000_0000)
        by (bit_vector)
        requires
            a_lo == a & 0xffff_ffff_ffff_ffff,
            a_hi == a >> 64u32,
    ;
    assert(b_lo == b % 0x1_0000_0000_0000_0000 && b_hi == b / 0x1_0000_0000_0000_0000)
        by (bit_vector)
        requires
            b_lo == b & 0xffff_ffff_ffff_ffff,
            b_hi == b >> 64u32,
    ;
    assert(a_lo < two_pow_64() && a_hi < two_pow_64() && b_lo < two_pow_64() && b_hi
        < two_pow_64());
    assert(a_lo * b_lo < two_pow_128() && a_hi * b_lo < two_pow_128() && a_lo * b_hi
        < two_pow_128() && a_hi * b_hi < two_pow_128()) by (nonlinear_arith)
        requires
            a_lo < two_pow_64(),
            a_hi < two_pow_64(),
            b_lo < two_pow_64(),
            b_hi < two_pow_64(),
            two_pow_128() == two_pow_64() * two_pow_64(),
    ;
    let lo_lo = a_lo * b_lo;
    let hi_lo = a_hi * b_lo;
    let lo_hi = a_lo * b_hi;
    let hi_hi = a_hi * b_hi;
    let s1 = hi_lo << 64u32;
    let s2 = lo_hi << 64u32;
    let t1 = hi_lo >> 64u32;
    let t2 = lo_hi >> 64u32;
    assert(s1 == (hi_lo % 0x1_0000_0000_0000_0000) * 0x1_0000_0000_0000_0000 && t1 == hi_lo
        / 0x1_0000_0000_0000_0000) by (bit_vector)
        requires
            s1 == hi_lo << 64u32,
            t1 == hi_lo >> 64u32,
    ;
    assert(s2 == (lo_hi % 0x1_0000_0000_0000_0000) * 0x1_0000_0000_0000_0000 && t2 == lo_hi
        / 0x1_0000_0000_0000_0000) by (bit_vector)
        requires
            s2 == lo_hi << 64u32,
            t2 == lo_hi >> 64u32,
    ;
    let mid1 = lo_lo.wrapping_add(s1);
    let carry1: u128 = if mid1 < lo_lo { 1 } else { 0 };
    let mid = mid1.wrapping_add(s2);
    let carry2: u128 = if mid < mid1 { 1 } else { 0 };
    assert(mid1 as nat + carry1 * two_pow_128() == lo_lo as nat + s1 as nat);
    assert(mid as nat + carry2 * two_pow_128() == mid1 as nat + s2 as nat);
    // a * b == hi_hi * 2^128 + (hi_lo + lo_hi) * 2^64 + lo_lo
    assert(a as nat * b as nat == hi_hi as nat * two_pow_128() + (hi_lo as nat + lo_hi as nat)
        * two_pow_64() + lo_lo as nat) by (nonlinear_arith)
        requires
            a == a_hi * two_pow_64() + a_lo,
            b == b_hi * two_pow_64() + b_lo,
            lo_lo == a_lo * b_lo,
            hi_lo == a_hi * b_lo,
            lo_hi == a_lo * b_hi,
            hi_hi == a_hi * b_hi,
            two_pow_128() == two_pow_64() * two_pow_64(),
    ;
    assert(hi_lo as nat * two_pow_64() == t1 as nat * two_pow_128() + s1 as nat)
        by (nonlinear_arith)
        requires
            hi_lo as nat == t1 * two_pow_64() + (hi_lo as nat) % two_pow_64(),
            s1 as nat == ((hi_lo as nat) % two_pow_64()) * two_pow_64(),
            two_pow_128() == two_pow_64() * two_pow_64(),
    ;
    assert(lo_hi as nat * two_pow_64() == t2 as nat * two_pow_128() + s2 as nat)
        by (nonlinear_arith)
        requires
            lo_hi as nat == t2 * two_pow_64() + (lo_hi as nat) % two_pow_64(),
            s2 as nat == ((lo_hi as nat) % two_pow_64()) * two_pow_64(),
            two_pow_128() == two_pow_64() * two_pow_64(),
    ;
    let ghost total: nat = (hi_hi + t1 + t2 + carry1 + carry2) as nat;
    assert(a as nat * b as nat == total * two_pow_128() + mid as nat) by (nonlinear_arith)
        requires
            a as nat * b as nat == hi_hi as nat * two_pow_128() + (hi_lo as nat + lo_hi as nat)
                * two_pow_64() + lo_lo as nat,
            hi_lo as nat * two_pow_64() == t1 as nat * two_pow_128() + s1 as nat,
            lo_hi as nat * two_pow_64() == t2 as nat * two_pow_128() + s2 as nat,
            mid1 as nat + carry1 * two_pow_128() == lo_lo as nat + s1 as nat,
            mid as nat + carry2 * two_pow_128() == mid1 as nat + s2 as nat,
            total == hi_hi + t1 + t2 + carry1 + carry2,
    ;
    assert(total < two_pow_128()) by (nonlinear_arith)
        requires
            a as nat * b as nat == total * two_pow_128() + mid as nat,
            (a as nat) < two_pow_128(),
            (b as nat) < two_pow_128(),
    ;
    let high = hi_hi + t1 + t2 + carry1 + carry2;
    (mid, high)
}


/// Doubles a value whose top bit is clear.
fn shl1(x: U256) -> (r: U256)
    requires
        x.high < 0x8000_0000_0000_0000_0000_0000_0000_0000u128,
    ensures
        r@ == 2 * x@,
{
    let h = x.high;
    let l = x.low;
    let nh = (h << 1u32) | (l >> 127u32);
    let nl = l << 1u32;
    assert(nh == h * 2 + l / 0x8000_0000_0000_0000_0000_0000_0000_0000u128 && nl == (l
        % 0x8000_0000_0000_0000_0000_0000_0000_0000u128) * 2) by (bit_vector)
        requires
            h < 0x8000_0000_0000_0000_0000_0000_0000_0000u128,
            nh == (h << 1u32) | (l >> 127u32),
            nl == l << 1u32,
    ;
    let r = U256 { high: nh, low: nl };
    assert(r@ == 2 * x@) by (nonlinear_arith)
        requires
            nh == h * 2 + l / 0x8000_0000_0000_0000_0000_0000_0000_0000u128,
            nl == (l % 0x8000_0000_0000_0000_0000_0000_0000_0000u128) * 2,
            r@ == nh as nat * two_pow_128() + nl as nat,
            x@ == h as nat * two_pow_128() + l as nat,
            two_pow_128() == 2 * 0x8000_0000_0000_0000_0000_0000_0000_0000nat,
    ;
    r
}

/// Halves a value, rounding down.
fn shr1(x: U256) -> (r: U256)
    ensures
        r@ == x@ / 2,
{
    let h = x.high;
    let l = x.low;
    let nh = h >> 1u32;
    let nl = (l >> 1u32) | (h << 127u32);
    assert(nh == h / 2 && nl == l / 2 + (h % 2) * 0x8000_0000_0000_0000_0000_0000_0000_0000u128)
        by (bit_vector)
        requires
            nh == h >> 1u32,
            nl == (l >> 1u32) | (h << 127u32),
    ;
    let r = U256 { high: nh, low: nl };
    assert(r@ == x@ / 2) by (nonlinear_arith)
        requires
            nh == h / 2,
            nl == l / 2 + (h % 2) * 0x8000_0000_0000_0000_0000_0000_0000_0000u128,
            r@ == nh as nat * two_pow_128() + nl as nat,
            x@ == h as nat * two_pow_128() + l as nat,
            two_pow_128() == 2 * 0x8000_0000_0000_0000_0000_0000_0000_0000nat,
    ;
    r
}

/// A value whose number is at most that of a value with a clear top bit
/// has a clear top bit too.
proof fn lemma_top_bit_clear(x: U256, y: U256)
    requires
        x@ <= y@,
        y.high < 0x8000_0000_0000_0000_0000_0000_0000_0000u128,
    ensures
        x.high < 0x8000_0000_0000_0000_0000_0000_0000_0000u128,
{
    assert(x.high < 0x8000_0000_0000_0000_0000_0000_0000_0000u128) by (nonlinear_arith)
        requires
            x@ <= y@,
            y.high < 0x8000_0000_0000_0000_0000_0000_0000_0000u128,
            x@ == x.high as nat * two_pow_128() + x.low as nat,
            y@ == y.high as nat * two_pow_128() + y.low as nat,
            (y.low as nat) < two_pow_128(),
    ;
}


/// Big-endian byte layout of a value: high half first.
pub open spec fn u256_be_bytes(x: U256) -> Seq<u8> {
    be_seq(x.high, 16) + be_seq(x.low, 16)
}

/// Little-endian byte layout of a value: low half first.
pub open spec fn u256_le_bytes(x: U256) -> Seq<u8> {
    le_seq(x.low, 16) + le_seq(x.high, 16)
}

/// A big-endian layout determines the value, so converting to bytes and
/// back gives the value again.
pub proof fn lemma_u256_be_bytes_injective(x: U256, y: U256)
    requires
        u256_be_bytes(x) == u256_be_bytes(y),
    ensures
        x == y,
{
    assert(be_seq(x.high, 16) == u256_be_bytes(x).subrange(0, 16));
    assert(be_seq(y.high, 16) == u256_be_bytes(y).subrange(0, 16));
    assert(be_seq(x.low, 16) == u256_be_bytes(x).subrange(16, 32));
    assert(be_seq(y.low, 16) == u256_be_bytes(y).subrange(16, 32));
    lemma_be16_injective(x.high, y.high);
    lemma_be16_injective(x.low, y.low);
}

/// The little-endian layout is the big-endian one reversed, so it too
/// determines the value.
pub proof fn lemma_u256_le_bytes_injective(x: U256, y: U256)
    requires
        u256_le_bytes(x) == u256_le_bytes(y),
    ensures
        x == y,
{
    lemma_u256_le_is_reversed_be(x);
    lemma_u256_le_is_reversed_be(y);
    assert(u256_be_bytes(x) =~= u256_le_bytes(x).reverse());
    assert(u256_be_bytes(y) =~= u256_le_bytes(y).reverse());
    lemma_u256_be_bytes_injective(x, y);
}

/// The little-endian layout is the big-endian layout reversed.
pub proof fn lemma_u256_le_is_reversed_be(x: U256)
    ensures
        u256_le_bytes(x) == u256_be_bytes(x).reverse(),
{
    crate::endian::lemma_le_is_reversed_be(x.high, 16);
    crate::endian::lemma_le_is_reversed_be(x.low, 16);
    assert(u256_le_bytes(x) =~= u256_be_bytes(x).reverse());
}


/// Number of binary digits of `x` (0 for 0).
pub open spec fn bit_len(x: nat) -> nat
    decreases x,
{
    if x == 0 {
        0
    } else {
        1 + bit_len(x / 2)
    }
}

/// Number of one bits of `x`.
pub open spec fn popcount(x: nat) -> nat
    decreases x,
{
    if x == 0 {
        0
    } else {
        x % 2 + popcount(x / 2)
    }
}

/// Number of zero bits below the lowest one bit of a nonzero `x`.
pub open spec fn trailing_zero_bits(x: nat) -> nat
    decreases x,
{
    if x == 0 || x % 2 == 1 {
        0
    } else {
        1 + trailing_zero_bits(x / 2)
    }
}

proof fn lemma_bit_len_bound(x: nat, k: nat)
    requires
        x < pow2(k),
    ensures
        bit_len(x) <= k,
    decreases k,
{
    if x > 0 {
        if k == 0 {
            vstd::arithmetic::power2::lemma_pow2(0);
            vstd::arithmetic::power::lemma_pow0(2);
        } else {
            vstd::arithmetic::power2::lemma_pow2_unfold(k);
            lemma_bit_len_bound(x / 2, (k - 1) as nat);
        }
    }
}

proof fn lemma_split_halves(h: nat, l: nat, k: nat)
    requires
        l < pow2(k),
        k > 0,
    ensures
        (h * pow2(k) + l) / 2 == h * pow2((k - 1) as nat) + l / 2,
        (h * pow2(k) + l) % 2 == l % 2,
        l / 2 < pow2((k - 1) as nat),
{
    vstd::arithmetic::power2::lemma_pow2_unfold(k);
    let p = pow2((k - 1) as nat);
    assert((h * (2 * p) + l) / 2 == h * p + l / 2 && (h * (2 * p) + l) % 2 == l % 2 && l / 2 < p)
        by (nonlinear_arith)
        requires
            l < 2 * p,
    ;
}

proof fn lemma_bit_len_concat(h: nat, l: nat, k: nat)
    requires
        h > 0,
        l < pow2(k),
    ensures
        bit_len(h * pow2(k) + l) == k + bit_len(h),
        popcount(h * pow2(k) + l) == popcount(h) + popcount(l),
    decreases k,
{
    if k == 0 {
        vstd::arithmetic::power2::lemma_pow2(0);
        vstd::arithmetic::power::lemma_pow0(2);
        assert(l == 0);
        assert(h * pow2(k) + l == h);
    } else {
        lemma_split_halves(h, l, k);
        lemma_bit_len_concat(h, l / 2, (k - 1) as nat);
        vstd::arithmetic::power2::lemma_pow2_pos(k);
        assert(h * pow2(k) + l > 0) by (nonlinear_arith)
            requires h > 0, pow2(k) > 0;
    }
}

proof fn lemma_popcount_concat_zero(l: nat, k: nat)
    requires
        l < pow2(k),
    ensures
        popcount(0 * pow2(k) + l) == popcount(l),
{
    assert(0 * pow2(k) + l == l);
}

proof fn lemma_trailing_concat(h: nat, l: nat, k: nat)
    requires
        l < pow2(k),
    ensures
        l != 0 ==> trailing_zero_bits(h * pow2(k) + l) == trailing_zero_bits(l),
        l == 0 ==> h * pow2(k) + l == h * pow2(k),
        h != 0 ==> trailing_zero_bits(h * pow2(k)) == k + trailing_zero_bits(h),
    decreases k,
{
    if k == 0 {
        vstd::arithmetic::power2::lemma_pow2(0);
        vstd::arithmetic::power::lemma_pow0(2);
        assert(pow2(0) == 1);
        assert(h * 1 == h);
    } else {
        lemma_split_halves(h, l, k);
        lemma_split_halves(h, 0, k);
        lemma_trailing_concat(h, l / 2, (k - 1) as nat);
        vstd::arithmetic::power2::lemma_pow2_pos((k - 1) as nat);
        vstd::arithmetic::power2::lemma_pow2_unfold(k);
        if h != 0 {
            assert(h * pow2(k) != 0) by (nonlinear_arith)
                requires h != 0, pow2(k) > 0;
            assert(h * pow2(k) + 0 == h * pow2(k));
        }
        if l != 0 && l % 2 == 0 {
            assert(h * pow2(k) + l != 0);
        }
    }
}

proof fn lemma_pow2_128()
    ensures
        pow2(128) == two_pow_128(),
{
    vstd::arithmetic::power2::lemma2_to64();
    vstd::arithmetic::power2::lemma_pow2_adds(64, 64);
}

/// Counts the binary digits of a 128-bit number.
fn u128_bit_len(x: u128) -> (r: u32)
    ensures
        r as nat == bit_len(x as nat),
        r <= 128,
{
    let mut v = x;
    let mut c: u32 = 0;
    proof {
        lemma_pow2_128();
        lemma_bit_len_bound(x as nat, 128);
    }
    while v != 0
        invariant
            bit_len(x as nat) == c + bit_len(v as nat),
            bit_len(x as nat) <= 128,
        decreases v,
    {
        v = v / 2;
        c = c + 1;
    }
    c
}

/// Counts the one bits of a 128-bit number.
fn u128_popcount(x: u128) -> (r: u32)
    ensures
        r as nat == popcount(x as nat),
        r <= 128,
{
    let mut v = x;
    let mut c: u32 = 0;
    proof {
        lemma_pow2_128();
        lemma_bit_len_bound(x as nat, 128);
        lemma_popcount_le_bit_len(x as nat);
    }
    while v != 0
        invariant
            popcount(x as nat) == c + popcount(v as nat),
            popcount(x as nat) <= 128,
        decreases v,
    {
        c = c + (v % 2) as u32;
        v = v / 2;
    }
    c
}

proof fn lemma_popcount_le_bit_len(x: nat)
    ensures
        popcount(x) <= bit_len(x),
        trailing_zero_bits(x) <= bit_len(x),
    decreases x,
{
    if x > 0 {
        lemma_popcount_le_bit_len(x / 2);
    }
}

/// Counts the zero bits below the lowest one bit of a nonzero number.
fn u128_trailing(x: u128) -> (r: u32)
    requires
        x != 0,
    ensures
        r as nat == trailing_zero_bits(x as nat),
        r < 128,
{
    let mut v = x;
    let mut c: u32 = 0;
    proof {
        lemma_pow2_128();
        lemma_bit_len_bound(x as nat, 128);
        lemma_popcount_le_bit_len(x as nat);
        lemma_trailing_lt_bit_len(x as nat);
    }
    while v % 2 == 0
        invariant
            v != 0,
            trailing_zero_bits(x as nat) == c + trailing_zero_bits(v as nat),
            trailing_zero_bits(x as nat) < 128,
        decreases v,
    {
        v = v / 2;
        c = c + 1;
    }
    c
}

proof fn lemma_trailing_lt_bit_len(x: nat)
    requires
        x != 0,
    ensures
        trailing_zero_bits(x) < bit_len(x),
    decreases x,
{
    if x % 2 == 0 {
        lemma_trailing_lt_bit_len(x / 2);
    }
}

impl From<u64> for U256 {
    fn from(value: u64) -> (r: Self) {
        U256 { high: 0, low: value as u128 }
    }
}

impl vstd::std_specs::convert::FromSpecImpl<u64> for U256 {
    open spec fn obeys_from_spec() -> bool {
        true
    }

    open spec fn from_spec(value: u64) -> Self {
        U256 { high: 0, low: value as u128 }
    }
}

impl From<u128> for U256 {
    fn from(value: u128) -> (r: Self) {
        U256 { high: 0, low: value }
    }
}

impl vstd::std_specs::convert::FromSpecImpl<u128> for U256 {
    open spec fn obeys_from_spec() -> bool {
        true
    }

    open spec fn from_spec(value: u128) -> Self {
        U256 { high: 0, low: value }
    }
}

impl Default for U256 {
    fn default() -> (r: Self)
        ensures
            r@ == 0,
            r.high == 0 && r.low == 0,
    {
        U256 { high: 0, low: 0 }
    }
}

impl U256 {
    /// Create a zero value
    pub fn zero() -> (r: Self)
        ensures
            r@ == 0,
            r.high == 0 && r.low == 0,
    {
        U256 { high: 0, low: 0 }
    }

    /// Create a one value
    pub fn one() -> (r: Self)
        ensures
            r@ == 1,
            r.high == 0 && r.low == 1,
    {
        U256 { high: 0, low: 1 }
    }

    /// Create from u64
    pub fn from_u64(value: u64) -> (r: Self)
        ensures
            r@ == value as nat,
            r.high == 0 && r.low == value as u128,
    {
        U256 { high: 0, low: value as u128 }
    }

    /// Create from u128
    pub fn from_u128(value: u128) -> (r: Self)
        ensures
            r@ == value as nat,
            r.high == 0 && r.low == value,
    {
        U256 { high: 0, low: value }
    }

    /// Create from two u128 values (high, low)
    pub fn from_parts(high: u128, low: u128) -> (r: Self)
        ensures
            r.high == high && r.low == low,
            r@ == high as nat * two_pow_128() + low as nat,
    {
        U256 { high, low }
    }


    /// Create from big-endian bytes
    pub fn from_be_bytes(bytes: &[u8; 32]) -> (r: Self)
        ensures
            u256_be_bytes(r) == bytes@,
    {
        let high = read_be(bytes, 0, 16);
        let low = read_be(bytes, 16, 16);
        let r = U256 { high, low };
        assert(u256_be_bytes(r) =~= bytes@);
        r
    }

    /// Create from little-endian bytes
    pub fn from_le_bytes(bytes: &[u8; 32]) -> (r: Self)
        ensures
            u256_le_bytes(r) == bytes@,
    {
        let low = read_le(bytes, 0, 16);
        let high = read_le(bytes, 16, 16);
        let r = U256 { high, low };
        assert(u256_le_bytes(r) =~= bytes@);
        r
    }

    /// Convert to big-endian bytes
    pub fn to_be_bytes(&self) -> (r: [u8; 32])
        ensures
            r@ == u256_be_bytes(*self),
    {
        let mut bytes = [0u8; 32];
        write_be(self.high, 16, &mut bytes, 0);
        write_be(self.low, 16, &mut bytes, 16);
        assert(bytes@ =~= u256_be_bytes(*self));
        bytes
    }

    /// Convert to little-endian bytes
    pub fn to_le_bytes(&self) -> (r: [u8; 32])
        ensures
            r@ == u256_le_bytes(*self),
    {
        let mut bytes = [0u8; 32];
        write_le(self.low, 16, &mut bytes, 0);
        write_le(self.high, 16, &mut bytes, 16);
        assert(bytes@ =~= u256_le_bytes(*self));
        bytes
    }

    /// Check if value is zero
    pub fn is_zero(&self) -> (r: bool)
        ensures
            r == (self@ == 0),
    {
        self.low == 0 && self.high == 0
    }

    /// Maximum value
    pub fn max_value() -> (r: Self)
        ensures
            r@ == two_pow_256() - 1,
            r.high == u128::MAX && r.low == u128::MAX,
    {
        U256 { high: u128::MAX, low: u128::MAX }
    }

    /// Checked addition
    pub fn checked_add(&self, other: &Self) -> (r: Option<Self>)
        ensures
            match r {
                Some(z) => z@ == self@ + other@,
                None => self@ + other@ >= two_pow_256(),
            },
    {
        let low = self.low.wrapping_add(other.low);
        let carry = low < self.low;
        assert(carry <==> self.low + other.low > u128::MAX);
        match self.high.checked_add(other.high) {
            None => {
                assert(self@ + other@ >= two_pow_256()) by (nonlinear_arith)
                    requires
                        self.high + other.high >= two_pow_128(),
                        self@ == self.high as nat * two_pow_128() + self.low as nat,
                        other@ == other.high as nat * two_pow_128() + other.low as nat,
                        two_pow_256() == two_pow_128() * two_pow_128(),
                ;
                None
            },
            Some(high) => {
                if carry {
                    match high.checked_add(1) {
                        None => {
                            assert(self@ + other@ >= two_pow_256()) by (nonlinear_arith)
                                requires
                                    self.high + other.high == two_pow_128() - 1,
                                    self.low + other.low >= two_pow_128(),
                                    self@ == self.high as nat * two_pow_128() + self.low as nat,
                                    other@ == other.high as nat * two_pow_128()
                                        + other.low as nat,
                                    two_pow_256() == two_pow_128() * two_pow_128(),
                            ;
                            None
                        },
                        Some(h) => {
                            let r = U256 { high: h, low };
                            assert(r@ == self@ + other@) by (nonlinear_arith)
                                requires
                                    h == self.high + other.high + 1,
                                    low == self.low + other.low - two_pow_128(),
                                    r@ == h as nat * two_pow_128() + low as nat,
                                    self@ == self.high as nat * two_pow_128() + self.low as nat,
                                    other@ == other.high as nat * two_pow_128()
                                        + other.low as nat,
                            ;
                            Some(r)
                        },
                    }
                } else {
                    let r = U256 { high, low };
                    assert(r@ == self@ + other@) by (nonlinear_arith)
                        requires
                            high == self.high + other.high,
                            low == self.low + other.low,
                            r@ == high as nat * two_pow_128() + low as nat,
                            self@ == self.high as nat * two_pow_128() + self.low as nat,
                            other@ == other.high as nat * two_pow_128() + other.low as nat,
                    ;
                    Some(r)
                }
            },
        }
    }

    /// Checked subtraction
    pub fn checked_sub(&self, other: &Self) -> (r: Option<Self>)
        ensures
            match r {
                Some(z) => z@ == self@ - other@,
                None => self@ < other@,
            },
    {
        let low = self.low.wrapping_sub(other.low);
        let borrow = self.low < other.low;
        match self.high.checked_sub(other.high) {
            None => {
                assert(self@ < other@) by (nonlinear_arith)
                    requires
                        self.high < other.high,
                        (self.low as nat) < two_pow_128(),
                        self@ == self.high as nat * two_pow_128() + self.low as nat,
                        other@ == other.high as nat * two_pow_128() + other.low as nat,
                ;
                None
            },
            Some(high) => {
                if borrow {
                    match high.checked_sub(1) {
                        None => {
                            assert(self@ < other@) by (nonlinear_arith)
                                requires
                                    self.high == other.high,
                                    self.low < other.low,
                                    self@ == self.high as nat * two_pow_128() + self.low as nat,
                                    other@ == other.high as nat * two_pow_128()
                                        + other.low as nat,
                            ;
                            None
                        },
                        Some(h) => {
                            let r = U256 { high: h, low };
                            assert(r@ == self@ - other@) by (nonlinear_arith)
                                requires
                                    h == self.high - other.high - 1,
                                    low == self.low - other.low + two_pow_128(),
                                    r@ == h as nat * two_pow_128() + low as nat,
                                    self@ == self.high as nat * two_pow_128() + self.low as nat,
                                    other@ == other.high as nat * two_pow_128()
                                        + other.low as nat,
                            ;
                            Some(r)
                        },
                    }
                } else {
                    let r = U256 { high, low };
                    assert(r@ == self@ - other@) by (nonlinear_arith)
                        requires
                            high == self.high - other.high,
                            low == self.low - other.low,
                            r@ == high as nat * two_pow_128() + low as nat,
                            self@ == self.high as nat * two_pow_128() + self.low as nat,
                            other@ == other.high as nat * two_pow_128() + other.low as nat,
                    ;
                    Some(r)
                }
            },
        }
    }


    /// Checked multiplication
    pub fn checked_mul(&self, other: &Self) -> (r: Option<Self>)
        ensures
            match r {
                Some(z) => z@ == self@ * other@,
                None => self@ * other@ >= two_pow_256(),
            },
    {
        if self.high != 0 && other.high != 0 {
            assert(self@ * other@ >= two_pow_256()) by (nonlinear_arith)
                requires
                    self.high >= 1,
                    other.high >= 1,
                    self@ == self.high as nat * two_pow_128() + self.low as nat,
                    other@ == other.high as nat * two_pow_128() + other.low as nat,
                    two_pow_256() == two_pow_128() * two_pow_128(),
            ;
            return None;
        }
        if self.high == 0 && other.high == 0 {
            let (low, high) = wide_mul_u128(self.low, other.low);
            return Some(U256 { low, high });
        }
        let (a, b) = if self.high != 0 {
            (self, other)
        } else {
            (other, self)
        };
        assert(a@ * b@ == self@ * other@) by (nonlinear_arith)
            requires
                (a@ == self@ && b@ == other@) || (a@ == other@ && b@ == self@),
        ;
        let low_product = wide_mul_u128(a.low, b.low);
        // a = ah * 2^128 + al, b = bl
        // a * b = (ah * bl + lp.1) * 2^128 + lp.0
        assert(a@ * b@ == (a.high as nat * b.low as nat + low_product.1 as nat) * two_pow_128()
            + low_product.0 as nat) by (nonlinear_arith)
            requires
                b.high == 0,
                a@ == a.high as nat * two_pow_128() + a.low as nat,
                b@ == b.high as nat * two_pow_128() + b.low as nat,
                low_product.1 as nat * two_pow_128() + low_product.0 as nat == a.low as nat
                    * b.low as nat,
        ;
        match a.high.checked_mul(b.low) {
            None => {
                assert(a@ * b@ >= two_pow_256()) by (nonlinear_arith)
                    requires
                        a.high as nat * b.low as nat >= two_pow_128(),
                        a@ * b@ == (a.high as nat * b.low as nat + low_product.1 as nat)
                            * two_pow_128() + low_product.0 as nat,
                        two_pow_256() == two_pow_128() * two_pow_128(),
                ;
                None
            },
            Some(cross_product) => {
                match low_product.1.checked_add(cross_product) {
                    None => {
                        assert(a@ * b@ >= two_pow_256()) by (nonlinear_arith)
                            requires
                                low_product.1 + cross_product >= two_pow_128(),
                                cross_product == a.high as nat * b.low as nat,
                                a@ * b@ == (a.high as nat * b.low as nat + low_product.1 as nat)
                                    * two_pow_128() + low_product.0 as nat,
                                two_pow_256() == two_pow_128() * two_pow_128(),
                        ;
                        None
                    },
                    Some(high) => Some(U256 { low: low_product.0, high }),
                }
            },
        }
    }


    /// Checked division: `None` exactly when dividing by zero.
    pub fn checked_div(&self, other: &Self) -> (r: Option<Self>)
        ensures
            match r {
                Some(q) => other@ != 0 && q@ == self@ / other@,
                None => other@ == 0,
            },
    {
        if other.is_zero() {
            return None;
        }
        if other.high == 0 && self.high == 0 {
            return Some(U256 { low: self.low / other.low, high: 0 });
        }
        if self.lt(other) {
            proof {
                vstd::arithmetic::div_mod::lemma_fundamental_div_mod_converse(
                    self@ as int, other@ as int, 0, self@ as int);
            }
            return Some(U256 { low: 0, high: 0 });
        }
        // Restoring long division: first scale the divisor up by powers of
        // two while it stays at most the dividend, then walk back down.
        let mut ds = *other;
        let mut pw = U256 { high: 0, low: 1 };
        let ghost mut s: nat = 0;
        proof {
            assert(pow2(0) == 1) by { vstd::arithmetic::power2::lemma_pow2(0); vstd::arithmetic::power::lemma_pow0(2); }
        }
        loop
            invariant
                other@ != 0,
                ds@ == other@ * pow2(s),
                pw@ == pow2(s),
                ds@ <= self@,
            ensures
                other@ != 0,
                ds@ == other@ * pow2(s),
                pw@ == pow2(s),
                ds@ <= self@,
                ds.high >= 0x8000_0000_0000_0000_0000_0000_0000_0000u128 || self@ < 2 * ds@,
            decreases self@ - ds@,
        {
            if ds.high >= 0x8000_0000_0000_0000_0000_0000_0000_0000u128 {
                break;
            }
            let d2 = shl1(ds);
            if self.lt(&d2) {
                break;
            }
            proof {
                vstd::arithmetic::power2::lemma_pow2_pos(s);
                assert(pw@ <= ds@) by (nonlinear_arith)
                    requires ds@ == other@ * pow2(s), pw@ == pow2(s), other@ >= 1;
                lemma_top_bit_clear(pw, ds);
                vstd::arithmetic::power2::lemma_pow2_unfold(s + 1);
                assert(other@ * pow2(s + 1) == 2 * (other@ * pow2(s))) by (nonlinear_arith)
                    requires pow2(s + 1) == 2 * pow2(s);
                vstd::arithmetic::power2::lemma_pow2_pos(s);
                assert(ds@ >= 1) by (nonlinear_arith)
                    requires ds@ == other@ * pow2(s), other@ >= 1, pow2(s) >= 1;
            }
            pw = shl1(pw);
            ds = d2;
            proof { s = s + 1; }
        }
        // Here 2 * ds > self (or ds has its top bit set, so 2 * ds >= 2^256 > self).
        proof {
            lemma_u256_view_bound(*self);
            if ds.high >= 0x8000_0000_0000_0000_0000_0000_0000_0000u128 {
                assert(2 * ds@ >= two_pow_256()) by (nonlinear_arith)
                    requires
                        ds.high >= 0x8000_0000_0000_0000_0000_0000_0000_0000u128,
                        ds@ == ds.high as nat * two_pow_128() + ds.low as nat,
                        two_pow_256() == two_pow_128() * two_pow_128(),
                        two_pow_128() == 2 * 0x8000_0000_0000_0000_0000_0000_0000_0000nat,
                ;
            }
        }
        let mut q = U256 { high: 0, low: 0 };
        let mut rem = *self;
        loop
            invariant
                other@ != 0,
                ds@ == other@ * pow2(s),
                pw@ == pow2(s),
                self@ == q@ * other@ + rem@,
                rem@ < 2 * ds@,
            ensures
                self@ == q@ * other@ + rem@,
                rem@ < other@,
            decreases s,
        {
            if !rem.lt(&ds) {
                proof {
                    assert((q@ + pw@) * other@ == q@ * other@ + ds@) by (nonlinear_arith)
                        requires ds@ == other@ * pow2(s), pw@ == pow2(s);
                    assert(q@ + pw@ <= self@) by (nonlinear_arith)
                        requires
                            (q@ + pw@) * other@ == q@ * other@ + ds@,
                            self@ == q@ * other@ + rem@,
                            rem@ >= ds@,
                            other@ >= 1,
                    ;
                    lemma_u256_view_bound(*self);
                }
                rem = rem.checked_sub(&ds).unwrap();
                q = q.checked_add(&pw).unwrap();
            }
            if pw.high == 0 && pw.low == 1 {
                proof {
                    if s > 0 {
                        vstd::arithmetic::power2::lemma_pow2_unfold(s);
                        vstd::arithmetic::power2::lemma_pow2_pos((s - 1) as nat);
                    }
                    assert(pow2(0) == 1) by { vstd::arithmetic::power2::lemma_pow2(0); vstd::arithmetic::power::lemma_pow0(2); }
                    assert(pw@ == 1);
                    assert(s == 0);
                    assert(ds@ == other@ * 1);
                }
                break;
            }
            proof {
                if s == 0 {
                    assert(pow2(0) == 1) by { vstd::arithmetic::power2::lemma_pow2(0); vstd::arithmetic::power::lemma_pow0(2); }
                }
                vstd::arithmetic::power2::lemma_pow2_unfold(s);
                assert(ds@ == 2 * (other@ * pow2((s - 1) as nat))) by (nonlinear_arith)
                    requires ds@ == other@ * pow2(s), pow2(s) == 2 * pow2((s - 1) as nat);
            }
            ds = shr1(ds);
            pw = shr1(pw);
            proof { s = (s - 1) as nat; }
        }
        proof {
            vstd::arithmetic::div_mod::lemma_fundamental_div_mod_converse(
                self@ as int, other@ as int, q@ as int, rem@ as int);
        }
        Some(q)
    }

    /// Saturating addition
    pub fn saturating_add(&self, other: &Self) -> (r: Self)
        ensures
            r@ == if self@ + other@ < two_pow_256() {
                self@ + other@
            } else {
                (two_pow_256() - 1) as nat
            },
    {
        match self.checked_add(other) {
            Some(z) => {
                proof { lemma_u256_view_bound(z); }
                z
            },
            None => Self::max_value(),
        }
    }

    /// Saturating subtraction
    pub fn saturating_sub(&self, other: &Self) -> (r: Self)
        ensures
            r@ == if self@ >= other@ { (self@ - other@) as nat } else { 0 },
    {
        match self.checked_sub(other) {
            Some(z) => z,
            None => Self::zero(),
        }
    }


    /// Count leading zeros
    pub fn leading_zeros(&self) -> (r: u32)
        ensures
            r as nat == 256 - bit_len(self@),
    {
        proof { lemma_pow2_128(); }
        if self.high == 0 {
            let b = u128_bit_len(self.low);
            assert(self@ == self.low as nat);
            256 - b
        } else {
            let b = u128_bit_len(self.high);
            proof { lemma_bit_len_concat(self.high as nat, self.low as nat, 128); }
            128 - b
        }
    }

    /// Count trailing zeros
    pub fn trailing_zeros(&self) -> (r: u32)
        ensures
            r as nat == if self@ == 0 { 256 } else { trailing_zero_bits(self@) },
    {
        proof {
            lemma_pow2_128();
            lemma_trailing_concat(self.high as nat, self.low as nat, 128);
        }
        if self.low == 0 {
            if self.high == 0 {
                256
            } else {
                let t = u128_trailing(self.high);
                128 + t
            }
        } else {
            u128_trailing(self.low)
        }
    }

    /// Bit count
    pub fn count_ones(&self) -> (r: u32)
        ensures
            r as nat == popcount(self@),
    {
        proof {
            lemma_pow2_128();
            if self.high != 0 {
                lemma_bit_len_concat(self.high as nat, self.low as nat, 128);
            } else {
                lemma_popcount_concat_zero(self.low as nat, 128);
            }
        }
        u128_popcount(self.low) + u128_popcount(self.high)
    }

    /// Numeric `<` on the values.
    pub fn lt(&self, other: &Self) -> (r: bool)
        ensures
            r == (self@ < other@),
    {
        proof {
            assert((self@ < other@) == (self.high < other.high || (self.high == other.high
                && self.low < other.low))) by (nonlinear_arith)
                requires
                    self@ == self.high as nat * two_pow_128() + self.low as nat,
                    other@ == other.high as nat * two_pow_128() + other.low as nat,
                    (self.low as nat) < two_pow_128(),
                    (other.low as nat) < two_pow_128(),
            ;
        }
        self.high < other.high || (self.high == other.high && self.low < other.low)
    }
}

} // verus!
