//! Text forms of numbers, hashes, topics and addresses: decimal and
//! lowercase hexadecimal.
use vstd::prelude::*;
use vstd::string::{StringExecFns, StringSliceAdditionalSpecFns};
use crate::address::Address;
use crate::endian::be_seq;
use crate::hash::Topic;
use crate::shape_json::hex_digit;
use crate::text::{digit_char, decimal, push_char, push_str};
use crate::u256::U256;

verus! {

/// The two lowercase hexadecimal digits of a byte.
pub open spec fn byte_hex(b: u8) -> Seq<char> {
    seq![hex_digit((b / 16) as nat), hex_digit((b % 16) as nat)]
}

/// The hex digits are 0-9 then lowercase a-f: digit `d` is the `d`-th
/// character of "0123456789abcdef".
pub proof fn lemma_hex_digits(d: nat)
    requires
        d < 16,
    ensures
        hex_digit(d) == "0123456789abcdef"@[d as int],
{
    reveal_strlit("0123456789abcdef");
}

/// The lowercase hexadecimal digits of bytes, two per byte.
pub open spec fn bytes_hex(s: Seq<u8>) -> Seq<char>
    decreases s.len(),
{
    if s.len() == 0 {
        Seq::empty()
    } else {
        bytes_hex(s.drop_last()) + byte_hex(s.last())
    }
}

fn hex_char(d: u8) -> (c: char)
    requires
        d < 16,
    ensures
        c == hex_digit(d as nat),
{
    if d < 10 {
        (d + 48) as char
    } else {
        (d - 10 + 97) as char
    }
}

/// Appends the hexadecimal digits of bytes.
pub fn push_bytes_hex(out: &mut String, bytes: &[u8])
    ensures
        final(out)@ == old(out)@ + bytes_hex(bytes@),
{
    let ghost start = out@;
    let mut i: usize = 0;
    while i < bytes.len()
        invariant
            i <= bytes@.len(),
            out@ == start + bytes_hex(bytes@.take(i as int)),
        decreases bytes@.len() - i,
    {
        assert(bytes@.take(i + 1).drop_last() =~= bytes@.take(i as int));
        let b = bytes[i];
        push_char(out, hex_char(b / 16));
        push_char(out, hex_char(b % 16));
        assert(out@ =~= start + bytes_hex(bytes@.take(i + 1)));
        i = i + 1;
    }
    assert(bytes@.take(bytes@.len() as int) =~= bytes@);
}

/// The decimal numeral of a `u128`.
pub fn u128_to_decimal(n: u128) -> (s: String)
    ensures
        s@ == decimal(n as nat),
{
    let mut digits: Vec<char> = Vec::new();
    let mut m: u128 = n;
    while m >= 10
        invariant
            decimal(n as nat) == decimal(m as nat) + digits@.reverse(),
        decreases m,
    {
        let d = ((m % 10) as u8 + 48) as char;
        assert(d == digit_char((m % 10) as nat));
        proof {
            assert(decimal(m as nat) == decimal((m / 10) as nat).push(digit_char((m % 10) as nat)));
            assert(digits@.push(d).reverse() =~= seq![d] + digits@.reverse());
            assert(decimal((m / 10) as nat).push(d) + digits@.reverse() =~= decimal((m / 10) as nat)
                + digits@.push(d).reverse());
        }
        digits.push(d);
        m = m / 10;
    }
    let d0 = ((m as u8) + 48) as char;
    assert(d0 == digit_char(m as nat));
    digits.push(d0);
    proof {
        assert(digits@.reverse() =~= seq![d0] + digits@.drop_last().reverse());
    }
    let mut s = String::new();
    let mut i: usize = digits.len();
    while i > 0
        invariant
            i <= digits@.len(),
            s@ == digits@.subrange(i as int, digits@.len() as int).reverse(),
        decreases i,
    {
        i = i - 1;
        proof {
            assert(digits@.subrange(i as int, digits@.len() as int).reverse() =~= digits@.subrange(
                i + 1,
                digits@.len() as int,
            ).reverse().push(digits@[i as int]));
        }
        push_char(&mut s, digits[i]);
    }
    assert(digits@.subrange(0, digits@.len() as int) =~= digits@);
    s
}

/// The display text of a `U256`: its decimal numeral when it fits in 128
/// bits, otherwise `0x` and 64 hexadecimal digits.
pub open spec fn u256_text(x: U256) -> Seq<char> {
    if x.high == 0 {
        decimal(x.low as nat)
    } else {
        seq!['0', 'x'] + bytes_hex(be_seq(x.high, 16)) + bytes_hex(be_seq(x.low, 16))
    }
}

/// The hex text of two byte strings one after the other is the hex text of
/// the first followed by that of the second.
pub proof fn lemma_bytes_hex_concat(a: Seq<u8>, b: Seq<u8>)
    ensures
        bytes_hex(a + b) == bytes_hex(a) + bytes_hex(b),
    decreases b.len(),
{
    if b.len() == 0 {
        assert(a + b =~= a);
        assert(bytes_hex(a) + bytes_hex(b) =~= bytes_hex(a));
    } else {
        lemma_bytes_hex_concat(a, b.drop_last());
        assert((a + b).drop_last() =~= a + b.drop_last());
        assert((a + b).last() == b.last());
        assert(bytes_hex(a) + bytes_hex(b) =~= bytes_hex(a) + bytes_hex(b.drop_last()) + byte_hex(b.last()));
    }
}

/// The display text of a value: the decimal digits of the number when it
/// is below 2^128; otherwise "0x" and the hex digits of its 32 big-endian
/// bytes, the bytes `to_be_bytes` gives, most significant first.
pub proof fn lemma_u256_text_of_value(x: U256)
    ensures
        x@ < crate::u256::two_pow_128() ==> u256_text(x) == decimal(x@),
        x@ >= crate::u256::two_pow_128() ==> u256_text(x) == seq!['0', 'x'] + bytes_hex(
            crate::u256::u256_be_bytes(x),
        ),
{
    let p = crate::u256::two_pow_128();
    assert(p > 0);
    if x.high == 0 {
        assert(x@ == x.low as nat);
    } else {
        assert(x@ >= p) by (nonlinear_arith)
            requires
                x@ == x.high as nat * p + x.low as nat,
                x.high >= 1,
                p > 0,
        ;
    }
    if x@ < p {
        assert(x.high == 0) by (nonlinear_arith)
            requires
                x@ == x.high as nat * p + x.low as nat,
                x@ < p,
                p > 0,
        ;
    } else {
        assert(x.low < p);
        assert(x.high != 0);
        lemma_bytes_hex_concat(be_seq(x.high, 16), be_seq(x.low, 16));
        assert(seq!['0', 'x'] + bytes_hex(be_seq(x.high, 16)) + bytes_hex(be_seq(x.low, 16)) =~= seq![
            '0',
            'x',
        ] + bytes_hex(crate::u256::u256_be_bytes(x)));
    }
}

impl U256 {
    /// The display text of the value.
    pub fn to_text(&self) -> (r: String)
        ensures
            r@ == u256_text(*self),
    {
        if self.high == 0 {
            u128_to_decimal(self.low)
        } else {
            let bytes = self.to_be_bytes();
            let mut s = String::new();
            push_char(&mut s, '0');
            push_char(&mut s, 'x');
            let hi = vstd::slice::slice_subrange(bytes.as_slice(), 0, 16);
            let lo = vstd::slice::slice_subrange(bytes.as_slice(), 16, 32);
            assert(hi@ =~= be_seq(self.high, 16));
            assert(lo@ =~= be_seq(self.low, 16));
            push_bytes_hex(&mut s, hi);
            push_bytes_hex(&mut s, lo);
            assert(s@ =~= u256_text(*self));
            s
        }
    }
}

impl crate::hash::Hash {
    /// The display text of the hash: `0x` and 64 hexadecimal digits.
    pub fn to_hex(&self) -> (r: String)
        ensures
            r@ == seq!['0', 'x'] + bytes_hex(self.0@),
    {
        let mut s = String::new();
        push_char(&mut s, '0');
        push_char(&mut s, 'x');
        push_bytes_hex(&mut s, self.0.as_slice());
        assert(s@ =~= seq!['0', 'x'] + bytes_hex(self.0@));
        s
    }

    /// The debug text of the hash: its first and last four bytes.
    pub fn debug_text(&self) -> (r: String)
        ensures
            r@ == "Hash(0x"@ + bytes_hex(self.0@.take(4)) + "..."@ + bytes_hex(self.0@.skip(28))
                + ")"@,
    {
        let mut s = String::new();
        push_str(&mut s, "Hash(0x");
        let head = vstd::slice::slice_subrange(self.0.as_slice(), 0, 4);
        let tail = vstd::slice::slice_subrange(self.0.as_slice(), 28, 32);
        assert(head@ =~= self.0@.take(4));
        assert(tail@ =~= self.0@.skip(28));
        push_bytes_hex(&mut s, head);
        push_str(&mut s, "...");
        push_bytes_hex(&mut s, tail);
        push_str(&mut s, ")");
        assert(s@ =~= "Hash(0x"@ + bytes_hex(self.0@.take(4)) + "..."@ + bytes_hex(self.0@.skip(28))
            + ")"@);
        s
    }
}

impl Topic {
    /// The debug text of the topic: its first eight bytes.
    pub fn debug_text(&self) -> (r: String)
        ensures
            r@ == "Topic(0x"@ + bytes_hex(self.0@.take(8)) + "...)"@,
    {
        let mut s = String::new();
        push_str(&mut s, "Topic(0x");
        let head = vstd::slice::slice_subrange(self.0.as_slice(), 0, 8);
        assert(head@ =~= self.0@.take(8));
        push_bytes_hex(&mut s, head);
        push_str(&mut s, "...)");
        assert(s@ =~= "Topic(0x"@ + bytes_hex(self.0@.take(8)) + "...)"@);
        s
    }
}

impl Address {
    /// The display text of the address: its text when it is valid UTF-8,
    /// otherwise `<binary address>`.
    pub fn display_text(&self) -> (r: String)
        ensures
            vstd::utf8::valid_utf8(self@) ==> vstd::utf8::encode_utf8(r@) == self@,
            !vstd::utf8::valid_utf8(self@) ==> r@ == "<binary address>"@,
    {
        match self.as_str() {
            Some(t) => String::from_str(t),
            None => String::from_str("<binary address>"),
        }
    }
}

} // verus!
