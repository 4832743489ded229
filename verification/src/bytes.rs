//! Byte utilities: length-prefixed copies and 32-byte padding.
use vstd::prelude::*;
use crate::abi::zeros;
use crate::endian::{be_seq, fits_bytes, le_seq, read_le, splice, write_le, lemma_be_injective, lemma_le_is_reversed_be};

verus! {

/// How many bytes of `src` a length-prefixed copy into `dst_len` bytes keeps.
pub open spec fn copied_len(src_len: nat, dst_len: nat) -> nat {
    let room = if dst_len >= 4 {
        (dst_len - 4) as nat
    } else {
        0
    };
    if src_len < room {
        src_len
    } else {
        room
    }
}

/// Copy bytes with length prefix: a 4-byte little-endian length followed by
/// as many bytes of `src` as fit; returns the number of bytes written.
pub fn copy_with_len(src: &[u8], dst: &mut [u8]) -> (r: usize)
    requires
        old(dst)@.len() >= 4,
    ensures
        r == 4 + copied_len(src@.len(), old(dst)@.len()),
        final(dst)@ == splice(
            old(dst)@,
            0,
            le_seq(copied_len(src@.len(), old(dst)@.len()) as u128, 4) + src@.take(
                copied_len(src@.len(), old(dst)@.len()) as int,
            ),
        ),
{
    let room = dst.len() - 4;
    let len = if src.len() < room {
        src.len()
    } else {
        room
    };
    let ghost orig = dst@;
    write_le(len as u128, 4, dst, 0);
    assert(forall|k: int| 0 <= k < 4 ==> dst@[k] == le_seq(len as u128, 4)[k]);
    assert(forall|k: int| 4 <= k < dst@.len() ==> dst@[k] == orig[k]);
    let dlen = dst.len();
    let mut i: usize = 0;
    while i < len
        invariant
            dlen == dst@.len(),
            dst@.len() == orig.len(),
            len <= src@.len(),
            4 + len <= dlen,
            i <= len,
            forall|k: int| 0 <= k < 4 ==> dst@[k] == le_seq(len as u128, 4)[k],
            forall|k: int| 4 + len <= k < dlen ==> dst@[k] == orig[k],
            forall|k: int| 0 <= k < i ==> dst@[4 + k] == src@[k],
        decreases len - i,
    {
        dst[4 + i] = src[i];
        i = i + 1;
    }
    assert(dst@ =~= splice(orig, 0, le_seq(len as u128, 4) + src@.take(len as int)));
    4 + len
}

/// Read bytes with length prefix: the bytes after a 4-byte little-endian
/// length, when that many follow.
pub fn read_with_len(src: &[u8]) -> (r: Option<&[u8]>)
    ensures
        src@.len() < 4 ==> r is None,
        src@.len() >= 4 ==> exists|len: u128|
            #![trigger le_seq(len, 4)]
            {
                &&& le_seq(len, 4) == src@.take(4)
                &&& fits_bytes(len, 4)
                &&& (r is Some <==> 4 + len <= src@.len())
                &&& (r matches Some(s) ==> s@ == src@.subrange(4, 4 + len))
            },
{
    if src.len() < 4 {
        return None;
    }
    let len = read_le(src, 0, 4);
    assert(len < 0x1_0000_0000) by {
        assert((1u128 << 32u128) == 0x1_0000_0000) by (bit_vector);
    }
    assert(src@.subrange(0, 4) =~= src@.take(4));
    let rest = (src.len() - 4) as u128;
    if rest < len {
        return None;
    }
    let n = len as usize;
    Some(vstd::slice::slice_subrange(src, 4, 4 + n))
}

/// What a length-prefixed copy writes reads back as the bytes it copied:
/// the only length its prefix can stand for is the number of bytes copied,
/// and that many bytes follow it.
pub proof fn lemma_copy_then_read(src: Seq<u8>, dst: Seq<u8>, len: u128)
    requires
        4 <= dst.len() <= 0xffff_ffff,
        fits_bytes(len, 4),
        le_seq(len, 4) == splice(
            dst,
            0,
            le_seq(copied_len(src.len(), dst.len()) as u128, 4) + src.take(
                copied_len(src.len(), dst.len()) as int,
            ),
        ).take(4),
    ensures
        len == copied_len(src.len(), dst.len()),
        4 + len <= dst.len(),
        splice(
            dst,
            0,
            le_seq(len, 4) + src.take(len as int),
        ).subrange(4, 4 + len) == src.take(len as int),
{
    let n = copied_len(src.len(), dst.len());
    let w = le_seq(n as u128, 4) + src.take(n as int);
    let out = splice(dst, 0, w);
    assert(out.take(4) =~= le_seq(n as u128, 4));
    assert((1u128 << 32u128) == 0x1_0000_0000) by (bit_vector);
    assert(fits_bytes(n as u128, 4));
    assert forall|i: int| 0 <= i < 4 implies be_seq(len, 4)[i] == be_seq(n as u128, 4)[i] by {
        assert(be_seq(len, 4)[i] == le_seq(len, 4)[3 - i]);
        assert(be_seq(n as u128, 4)[i] == le_seq(n as u128, 4)[3 - i]);
    }
    assert(be_seq(len, 4) =~= be_seq(n as u128, 4));
    lemma_be_injective(len, n as u128, 4);
    assert(out.subrange(4, 4 + len) =~= src.take(len as int));
}

/// The first `min(len, 32)` bytes of `src`.
pub open spec fn head32(src: Seq<u8>) -> Seq<u8> {
    src.take(
        if src.len() < 32 {
            src.len() as int
        } else {
            32
        },
    )
}

/// Pad bytes to 32 bytes (right-padded)
pub fn pad_right_32(src: &[u8]) -> (r: [u8; 32])
    ensures
        r@ == head32(src@) + zeros((32 - head32(src@).len()) as nat),
{
    let mut result = [0u8; 32];
    let len = if src.len() < 32 {
        src.len()
    } else {
        32
    };
    let mut i: usize = 0;
    while i < len
        invariant
            len <= 32,
            len <= src@.len(),
            i <= len,
            forall|k: int| 0 <= k < i ==> result@[k] == src@[k],
            forall|k: int| len <= k < 32 ==> result@[k] == 0,
        decreases len - i,
    {
        result[i] = src[i];
        i = i + 1;
    }
    assert(result@ =~= head32(src@) + zeros((32 - head32(src@).len()) as nat));
    result
}

/// Pad bytes to 32 bytes (left-padded)
pub fn pad_left_32(src: &[u8]) -> (r: [u8; 32])
    ensures
        r@ == zeros((32 - head32(src@).len()) as nat) + head32(src@),
{
    let mut result = [0u8; 32];
    let len = if src.len() < 32 {
        src.len()
    } else {
        32
    };
    let start = 32 - len;
    let mut i: usize = 0;
    while i < len
        invariant
            len <= 32,
            start == 32 - len,
            len <= src@.len(),
            i <= len,
            forall|k: int| 0 <= k < i ==> result@[start + k] == src@[k],
            forall|k: int| 0 <= k < start ==> result@[k] == 0,
        decreases len - i,
    {
        result[start + i] = src[i];
        i = i + 1;
    }
    assert(result@ =~= zeros((32 - head32(src@).len()) as nat) + head32(src@));
    result
}

} // verus!
