//! Keccak-256 (the Keccak-f[1600] sponge with rate 1088 bits, capacity 512
//! bits and Keccak's own 0x01 padding), as used for Ethereum-style
//! function selectors and event topics.
use vstd::prelude::*;

verus! {

// ---------------------------------------------------------------------
// The permutation, stated lane by lane after FIPS 202. A state is 25
// lanes; lane (x, y) is at index x + 5 * y.
// ---------------------------------------------------------------------

/// Left rotation of a 64-bit lane by `n` bits (0 <= n < 64).
pub open spec fn rotl(v: u64, n: u32) -> u64 {
    if n == 0 {
        v
    } else {
        (v << n) | (v >> ((64 - n) as u32))
    }
}

/// Column parity C[x] of the theta step.
pub open spec fn column(a: Seq<u64>, x: int) -> u64 {
    a[x] ^ a[x + 5] ^ a[x + 10] ^ a[x + 15] ^ a[x + 20]
}

/// D[x] of the theta step.
pub open spec fn theta_d(a: Seq<u64>, x: int) -> u64 {
    column(a, (x + 4) % 5) ^ rotl(column(a, (x + 1) % 5), 1)
}

/// The theta step.
pub open spec fn theta(a: Seq<u64>) -> Seq<u64> {
    Seq::new(25, |i: int| a[i] ^ theta_d(a, i % 5))
}

/// Rotation offset r[x, y] of the rho step, by lane index.
pub open spec fn rho_offset(i: int) -> u32 {
    if i == 0 { 0 }
    else if i == 1 { 1 } else if i == 2 { 62 } else if i == 3 { 28 } else if i == 4 { 27 }
    else if i == 5 { 36 } else if i == 6 { 44 } else if i == 7 { 6 } else if i == 8 { 55 }
    else if i == 9 { 20 } else if i == 10 { 3 } else if i == 11 { 10 } else if i == 12 { 43 }
    else if i == 13 { 25 } else if i == 14 { 39 } else if i == 15 { 41 } else if i == 16 { 45 }
    else if i == 17 { 15 } else if i == 18 { 21 } else if i == 19 { 8 } else if i == 20 { 18 }
    else if i == 21 { 2 } else if i == 22 { 61 } else if i == 23 { 56 } else { 14 }
}

/// The rho step.
pub open spec fn rho(a: Seq<u64>) -> Seq<u64> {
    Seq::new(25, |i: int| rotl(a[i], rho_offset(i)))
}

/// Lane that the pi step moves to position i = x + 5 * y: A[(x + 3y) mod 5, x].
pub open spec fn pi_source(i: int) -> int {
    (i % 5 + 3 * (i / 5)) % 5 + 5 * (i % 5)
}

/// The pi step.
pub open spec fn pi(a: Seq<u64>) -> Seq<u64> {
    Seq::new(25, |i: int| a[pi_source(i)])
}

/// The chi step.
pub open spec fn chi(a: Seq<u64>) -> Seq<u64> {
    Seq::new(
        25,
        |i: int|
            a[i] ^ (!a[(i % 5 + 1) % 5 + 5 * (i / 5)] & a[(i % 5 + 2) % 5 + 5 * (i / 5)]),
    )
}

/// Round constant of round `r`.
pub open spec fn round_constant(r: int) -> u64 {
    if r == 0 { 0x0000000000000001 } else if r == 1 { 0x0000000000008082 }
    else if r == 2 { 0x800000000000808A } else if r == 3 { 0x8000000080008000 }
    else if r == 4 { 0x000000000000808B } else if r == 5 { 0x0000000080000001 }
    else if r == 6 { 0x8000000080008081 } else if r == 7 { 0x8000000000008009 }
    else if r == 8 { 0x000000000000008A } else if r == 9 { 0x0000000000000088 }
    else if r == 10 { 0x0000000080008009 } else if r == 11 { 0x000000008000000A }
    else if r == 12 { 0x000000008000808B } else if r == 13 { 0x800000000000008B }
    else if r == 14 { 0x8000000000008089 } else if r == 15 { 0x8000000000008003 }
    else if r == 16 { 0x8000000000008002 } else if r == 17 { 0x8000000000000080 }
    else if r == 18 { 0x000000000000800A } else if r == 19 { 0x800000008000000A }
    else if r == 20 { 0x8000000080008081 } else if r == 21 { 0x8000000000008080 }
    else if r == 22 { 0x0000000080000001 } else { 0x8000000080008008 }
}

/// The iota step of round `r`.
pub open spec fn iota(a: Seq<u64>, r: int) -> Seq<u64> {
    a.update(0, a[0] ^ round_constant(r))
}

/// One round of Keccak-f[1600].
pub open spec fn keccak_round(a: Seq<u64>, r: int) -> Seq<u64> {
    iota(chi(pi(rho(theta(a)))), r)
}

/// The first `n` rounds of Keccak-f[1600].
pub open spec fn keccak_rounds(a: Seq<u64>, n: nat) -> Seq<u64>
    decreases n,
{
    if n == 0 {
        a
    } else {
        keccak_round(keccak_rounds(a, (n - 1) as nat), n - 1)
    }
}

/// The Keccak-f[1600] permutation: 24 rounds.
pub open spec fn keccak_f(a: Seq<u64>) -> Seq<u64> {
    keccak_rounds(a, 24)
}

// ---------------------------------------------------------------------
// Executable permutation.
// ---------------------------------------------------------------------

fn rotl64(v: u64, n: u32) -> (r: u64)
    requires
        1 <= n < 64,
    ensures
        r == rotl(v, n),
{
    (v << n) | (v >> (64 - n))
}

fn theta_step(state: &mut [u64; 25])
    ensures
        final(state)@ == theta(old(state)@),
{
    let ghost a = state@;
    let mut c = [0u64; 5];
    let mut x: usize = 0;
    while x < 5
        invariant
            x <= 5,
            state@ == a,
            forall|k: int| 0 <= k < x ==> c@[k] == column(a, k),
        decreases 5 - x,
    {
        c[x] = state[x] ^ state[x + 5] ^ state[x + 10] ^ state[x + 15] ^ state[x + 20];
        x = x + 1;
    }
    let mut d = [0u64; 5];
    let mut x: usize = 0;
    while x < 5
        invariant
            x <= 5,
            state@ == a,
            forall|k: int| 0 <= k < 5 ==> c@[k] == column(a, k),
            forall|k: int| 0 <= k < x ==> d@[k] == theta_d(a, k),
        decreases 5 - x,
    {
        d[x] = c[(x + 4) % 5] ^ rotl64(c[(x + 1) % 5], 1);
        x = x + 1;
    }
    let mut i: usize = 0;
    while i < 25
        invariant
            i <= 25,
            state@.len() == 25,
            forall|k: int| 0 <= k < 5 ==> d@[k] == theta_d(a, k),
            forall|k: int| 0 <= k < i ==> state@[k] == theta(a)[k],
            forall|k: int| i <= k < 25 ==> state@[k] == a[k],
        decreases 25 - i,
    {
        state[i] = state[i] ^ d[i % 5];
        i = i + 1;
    }
    assert(state@ =~= theta(a));
}

// The combined rho and pi steps walk the 24 moving lanes along one cycle:
// the lane at position `pi_lane(i)` receives lane `chain_source(i)`
// rotated by `rot_amount(i)`.

/// Lane written at step `i` of the rho-pi walk.
pub open spec fn pi_lane(i: int) -> int {
    if i == 0 { 10 } else if i == 1 { 7 } else if i == 2 { 11 } else if i == 3 { 17 } else if i == 4 { 18 } else if i == 5 { 3 } else if i == 6 { 5 } else if i == 7 { 16 } else if i == 8 { 8 } else if i == 9 { 21 } else if i == 10 { 24 } else if i == 11 { 4 } else if i == 12 { 15 } else if i == 13 { 23 } else if i == 14 { 19 } else if i == 15 { 13 } else if i == 16 { 12 } else if i == 17 { 2 } else if i == 18 { 20 } else if i == 19 { 14 } else if i == 20 { 22 } else if i == 21 { 9 } else if i == 22 { 6 } else { 1 }
}

/// Rotation applied at step `i` of the rho-pi walk.
pub open spec fn rot_amount(i: int) -> u32 {
    if i == 0 { 1 } else if i == 1 { 3 } else if i == 2 { 6 } else if i == 3 { 10 } else if i == 4 { 15 } else if i == 5 { 21 } else if i == 6 { 28 } else if i == 7 { 36 } else if i == 8 { 45 } else if i == 9 { 55 } else if i == 10 { 2 } else if i == 11 { 14 } else if i == 12 { 27 } else if i == 13 { 41 } else if i == 14 { 56 } else if i == 15 { 8 } else if i == 16 { 25 } else if i == 17 { 43 } else if i == 18 { 62 } else if i == 19 { 18 } else if i == 20 { 39 } else if i == 21 { 61 } else if i == 22 { 20 } else { 44 }
}

/// Step of the walk that writes lane `l` (24 for the fixed lane 0).
pub open spec fn pi_position(l: int) -> int {
    if l == 0 { 24 } else if l == 1 { 23 } else if l == 2 { 17 } else if l == 3 { 5 } else if l == 4 { 11 } else if l == 5 { 6 } else if l == 6 { 22 } else if l == 7 { 1 } else if l == 8 { 8 } else if l == 9 { 21 } else if l == 10 { 0 } else if l == 11 { 2 } else if l == 12 { 16 } else if l == 13 { 15 } else if l == 14 { 19 } else if l == 15 { 12 } else if l == 16 { 7 } else if l == 17 { 3 } else if l == 18 { 4 } else if l == 19 { 14 } else if l == 20 { 18 } else if l == 21 { 9 } else if l == 22 { 20 } else if l == 23 { 13 } else { 10 }
}

/// Lane read at step `i` of the walk.
pub open spec fn chain_source(i: int) -> int {
    if i == 0 { 1 } else { pi_lane(i - 1) }
}

fn pi_lane_exec(i: usize) -> (r: usize)
    requires
        i < 24,
    ensures
        r as int == pi_lane(i as int),
{
    match i {
        0 => 10,
        1 => 7,
        2 => 11,
        3 => 17,
        4 => 18,
        5 => 3,
        6 => 5,
        7 => 16,
        8 => 8,
        9 => 21,
        10 => 24,
        11 => 4,
        12 => 15,
        13 => 23,
        14 => 19,
        15 => 13,
        16 => 12,
        17 => 2,
        18 => 20,
        19 => 14,
        20 => 22,
        21 => 9,
        22 => 6,
        _ => 1,
    }
}

fn rot_amount_exec(i: usize) -> (r: u32)
    requires
        i < 24,
    ensures
        r == rot_amount(i as int),
{
    match i {
        0 => 1,
        1 => 3,
        2 => 6,
        3 => 10,
        4 => 15,
        5 => 21,
        6 => 28,
        7 => 36,
        8 => 45,
        9 => 55,
        10 => 2,
        11 => 14,
        12 => 27,
        13 => 41,
        14 => 56,
        15 => 8,
        16 => 25,
        17 => 43,
        18 => 62,
        19 => 18,
        20 => 39,
        21 => 61,
        22 => 20,
        _ => 44,
    }
}

proof fn lemma_walk_tables()
    ensures
        forall|i: int| 0 <= i < 24 ==> 1 <= #[trigger] pi_lane(i) < 25 && pi_position(pi_lane(i)) == i,
        forall|l: int| 1 <= l < 25 ==> 0 <= #[trigger] pi_position(l) < 24 && pi_lane(pi_position(l)) == l,
        pi_position(0) == 24,
        forall|l: int|
            1 <= l < 25 ==> #[trigger] chain_source(pi_position(l)) == pi_source(l) && rot_amount(
                pi_position(l),
            ) == rho_offset(pi_source(l)),
        pi_source(0) == 0,
        rho_offset(0) == 0,
{
    assert forall|i: int| 0 <= i < 24 implies 1 <= #[trigger] pi_lane(i) < 25 && pi_position(pi_lane(i)) == i by {
        if i == 0 {} else if i == 1 {} else if i == 2 {} else if i == 3 {} else if i == 4 {} else if i == 5 {} else if i == 6 {} else if i == 7 {} else if i == 8 {} else if i == 9 {} else if i == 10 {} else if i == 11 {} else if i == 12 {} else if i == 13 {} else if i == 14 {} else if i == 15 {} else if i == 16 {} else if i == 17 {} else if i == 18 {} else if i == 19 {} else if i == 20 {} else if i == 21 {} else if i == 22 {} else {}
    }
    assert forall|l: int|
        1 <= l < 25 implies #[trigger] chain_source(pi_position(l)) == pi_source(l) && rot_amount(
            pi_position(l),
        ) == rho_offset(pi_source(l)) && 0 <= pi_position(l) < 24 && pi_lane(pi_position(l)) == l by {
        if l == 1 { assert(pi_source(l) == 6); } else if l == 2 { assert(pi_source(l) == 12); } else if l == 3 { assert(pi_source(l) == 18); } else if l == 4 { assert(pi_source(l) == 24); } else if l == 5 { assert(pi_source(l) == 3); } else if l == 6 { assert(pi_source(l) == 9); } else if l == 7 { assert(pi_source(l) == 10); } else if l == 8 { assert(pi_source(l) == 16); } else if l == 9 { assert(pi_source(l) == 22); } else if l == 10 { assert(pi_source(l) == 1); } else if l == 11 { assert(pi_source(l) == 7); } else if l == 12 { assert(pi_source(l) == 13); } else if l == 13 { assert(pi_source(l) == 19); } else if l == 14 { assert(pi_source(l) == 20); } else if l == 15 { assert(pi_source(l) == 4); } else if l == 16 { assert(pi_source(l) == 5); } else if l == 17 { assert(pi_source(l) == 11); } else if l == 18 { assert(pi_source(l) == 17); } else if l == 19 { assert(pi_source(l) == 23); } else if l == 20 { assert(pi_source(l) == 2); } else if l == 21 { assert(pi_source(l) == 8); } else if l == 22 { assert(pi_source(l) == 14); } else if l == 23 { assert(pi_source(l) == 15); } else { assert(pi_source(l) == 21); }
    }
}

fn rho_pi_step(state: &mut [u64; 25])
    ensures
        final(state)@ == pi(rho(old(state)@)),
{
    let ghost a = state@;
    proof { lemma_walk_tables(); }
    let mut current = state[1];
    let mut i: usize = 0;
    while i < 24
        invariant
            i <= 24,
            state@.len() == 25,
            current == a[chain_source(i as int)],
            forall|i: int| 0 <= i < 24 ==> 1 <= #[trigger] pi_lane(i) < 25 && pi_position(pi_lane(i)) == i,
            forall|l: int| 1 <= l < 25 ==> 0 <= #[trigger] pi_position(l) < 24 && pi_lane(pi_position(l)) == l,
            pi_position(0) == 24,
            forall|l: int|
                0 <= l < 25 ==> #[trigger] state@[l] == if pi_position(l) < i {
                    rotl(a[chain_source(pi_position(l))], rot_amount(pi_position(l)))
                } else {
                    a[l]
                },
        decreases 24 - i,
    {
        let j = pi_lane_exec(i);
        let temp = state[j];
        assert(temp == a[j as int]);
        let amt = rot_amount_exec(i);
        assert(1 <= amt < 64) by { if i == 0 {} else if i == 1 {} else if i == 2 {} else if i == 3 {} else if i == 4 {} else if i == 5 {} else if i == 6 {} else if i == 7 {} else if i == 8 {} else if i == 9 {} else if i == 10 {} else if i == 11 {} else if i == 12 {} else if i == 13 {} else if i == 14 {} else if i == 15 {} else if i == 16 {} else if i == 17 {} else if i == 18 {} else if i == 19 {} else if i == 20 {} else if i == 21 {} else if i == 22 {} else {} }
        state[j] = rotl64(current, amt);
        current = temp;
        i = i + 1;
        assert forall|l: int| 0 <= l < 25 implies #[trigger] state@[l] == if pi_position(l) < i {
            rotl(a[chain_source(pi_position(l))], rot_amount(pi_position(l)))
        } else {
            a[l]
        } by {
            if l == j {
            } else {
                assert(pi_position(l) != i - 1);
            }
        }
    }
    assert(state@ =~= pi(rho(a)));
}

fn chi_step(state: &mut [u64; 25])
    ensures
        final(state)@ == chi(old(state)@),
{
    let ghost a = state@;
    let mut y: usize = 0;
    while y < 5
        invariant
            y <= 5,
            state@.len() == 25,
            forall|k: int| 0 <= k < 5 * y ==> state@[k] == chi(a)[k],
            forall|k: int| 5 * y <= k < 25 ==> state@[k] == a[k],
        decreases 5 - y,
    {
        let mut row = [0u64; 5];
        let mut x: usize = 0;
        while x < 5
            invariant
                x <= 5,
                y < 5,
                state@.len() == 25,
                forall|k: int| 0 <= k < x ==> row@[k] == a[k + 5 * y],
                forall|k: int| 0 <= k < 5 * y ==> state@[k] == chi(a)[k],
                forall|k: int| 5 * y <= k < 25 ==> state@[k] == a[k],
            decreases 5 - x,
        {
            row[x] = state[x + 5 * y];
            x = x + 1;
        }
        let mut x: usize = 0;
        while x < 5
            invariant
                x <= 5,
                y < 5,
                state@.len() == 25,
                forall|k: int| 0 <= k < 5 ==> row@[k] == a[k + 5 * y],
                forall|k: int| 0 <= k < 5 * y + x ==> state@[k] == chi(a)[k],
                forall|k: int| 5 * y + x <= k < 25 ==> state@[k] == a[k],
            decreases 5 - x,
        {
            state[x + 5 * y] = row[x] ^ (!row[(x + 1) % 5] & row[(x + 2) % 5]);
            proof {
                let k = x + 5 * y;
                assert(k % 5 == x && k / 5 == y);
            }
            x = x + 1;
        }
        y = y + 1;
    }
    assert(state@ =~= chi(a));
}

fn round_constant_exec(r: usize) -> (c: u64)
    requires
        r < 24,
    ensures
        c == round_constant(r as int),
{
    match r {
        0 => 0x0000000000000001,
        1 => 0x0000000000008082,
        2 => 0x800000000000808A,
        3 => 0x8000000080008000,
        4 => 0x000000000000808B,
        5 => 0x0000000080000001,
        6 => 0x8000000080008081,
        7 => 0x8000000000008009,
        8 => 0x000000000000008A,
        9 => 0x0000000000000088,
        10 => 0x0000000080008009,
        11 => 0x000000008000000A,
        12 => 0x000000008000808B,
        13 => 0x800000000000008B,
        14 => 0x8000000000008089,
        15 => 0x8000000000008003,
        16 => 0x8000000000008002,
        17 => 0x8000000000000080,
        18 => 0x000000000000800A,
        19 => 0x800000008000000A,
        20 => 0x8000000080008081,
        21 => 0x8000000000008080,
        22 => 0x0000000080000001,
        _ => 0x8000000080008008,
    }
}

/// Keccak-f[1600] permutation (24 rounds).
fn keccak_f1600(state: &mut [u64; 25])
    ensures
        final(state)@ == keccak_f(old(state)@),
{
    let ghost a = state@;
    let mut round: usize = 0;
    while round < 24
        invariant
            round <= 24,
            state@ == keccak_rounds(a, round as nat),
        decreases 24 - round,
    {
        theta_step(state);
        rho_pi_step(state);
        chi_step(state);
        let rc = round_constant_exec(round);
        state[0] = state[0] ^ rc;
        proof {
            assert(state@ =~= keccak_round(keccak_rounds(a, round as nat), round as int));
        }
        round = round + 1;
    }
}

// ---------------------------------------------------------------------
// The sponge.
// ---------------------------------------------------------------------

/// Rate of Keccak-256 in bytes.
pub open spec fn rate() -> int {
    136
}

/// The 64-bit word whose little-endian bytes are b0 .. b7.
pub open spec fn le_word(b0: u8, b1: u8, b2: u8, b3: u8, b4: u8, b5: u8, b6: u8, b7: u8) -> u64 {
    (b0 as u64) | ((b1 as u64) << 8u64) | ((b2 as u64) << 16u64) | ((b3 as u64) << 24u64) | ((
    b4 as u64) << 32u64) | ((b5 as u64) << 40u64) | ((b6 as u64) << 48u64) | ((b7 as u64)
        << 56u64)
}

/// Lane `i` of a block: bytes 8i .. 8i+8, little-endian.
pub open spec fn block_lane(b: Seq<u8>, i: int) -> u64 {
    le_word(
        b[8 * i],
        b[8 * i + 1],
        b[8 * i + 2],
        b[8 * i + 3],
        b[8 * i + 4],
        b[8 * i + 5],
        b[8 * i + 6],
        b[8 * i + 7],
    )
}

/// XOR of a 136-byte block into the first 17 lanes of a state.
pub open spec fn xor_block(s: Seq<u64>, b: Seq<u8>) -> Seq<u64> {
    Seq::new(25, |k: int| if k < 17 { s[k] ^ block_lane(b, k) } else { s[k] })
}

/// Keccak padding (pad10*1 with the domain byte 0x01) to a multiple of the rate.
pub open spec fn keccak_pad(m: Seq<u8>) -> Seq<u8> {
    let q = rate() - (m.len() as int) % rate();
    if q == 1 {
        m.push(0x81u8)
    } else {
        m.push(0x01u8) + Seq::new((q - 2) as nat, |i: int| 0u8) + seq![0x80u8]
    }
}

/// Absorbs a padded message block by block.
pub open spec fn absorb(s: Seq<u64>, p: Seq<u8>) -> Seq<u64>
    decreases p.len(),
{
    if p.len() < rate() {
        s
    } else {
        absorb(keccak_f(xor_block(s, p.take(rate()))), p.skip(rate()))
    }
}

/// The first 32 bytes of a state, lanes in order, each little-endian.
pub open spec fn squeeze(s: Seq<u64>) -> Seq<u8> {
    Seq::new(32, |j: int| (s[j / 8] >> ((8 * (j % 8)) as u64)) as u8)
}

/// The all-zero state.
pub open spec fn zero_state() -> Seq<u64> {
    Seq::new(25, |i: int| 0u64)
}

/// Keccak-256 of a byte string.
pub open spec fn keccak256_spec(m: Seq<u8>) -> Seq<u8> {
    squeeze(absorb(zero_state(), keccak_pad(m)))
}

fn load_lane(data: &[u8], off: usize) -> (r: u64)
    requires
        off + 8 <= data@.len(),
    ensures
        r == le_word(
            data@[off as int],
            data@[off + 1],
            data@[off + 2],
            data@[off + 3],
            data@[off + 4],
            data@[off + 5],
            data@[off + 6],
            data@[off + 7],
        ),
{
    (data[off] as u64) | ((data[off + 1] as u64) << 8u64) | ((data[off + 2] as u64) << 16u64) | ((
    data[off + 3] as u64) << 24u64) | ((data[off + 4] as u64) << 32u64) | ((data[off + 5] as u64)
        << 40u64) | ((data[off + 6] as u64) << 48u64) | ((data[off + 7] as u64) << 56u64)
}

/// XORs the block at `off` into the state and applies the permutation.
fn absorb_block(state: &mut [u64; 25], data: &[u8], off: usize)
    requires
        off + 136 <= data@.len(),
    ensures
        final(state)@ == keccak_f(xor_block(old(state)@, data@.subrange(off as int, off + 136))),
{
    let ghost a = state@;
    let ghost b = data@.subrange(off as int, off + 136);
    let dlen = data.len();
    let mut k: usize = 0;
    while k < 17
        invariant
            k <= 17,
            a.len() == 25,
            dlen == data@.len(),
            off + 136 <= data@.len(),
            b == data@.subrange(off as int, off + 136),
            state@.len() == 25,
            forall|j: int| 0 <= j < k ==> state@[j] == xor_block(a, b)[j],
            forall|j: int| k <= j < 25 ==> state@[j] == a[j],
        decreases 17 - k,
    {
        let w = load_lane(data, off + 8 * k);
        assert(w == block_lane(b, k as int));
        state[k] = state[k] ^ w;
        k = k + 1;
    }
    assert(state@ =~= xor_block(a, b));
    keccak_f1600(state);
}

proof fn lemma_pad_facts(m: Seq<u8>, offset: int)
    requires
        0 <= offset <= m.len(),
        offset % 136 == 0,
    ensures
        keccak_pad(m).len() == m.len() + (136 - m.len() % 136),
        offset + 136 <= m.len() ==> keccak_pad(m).skip(offset).take(136) == m.subrange(
            offset,
            offset + 136,
        ),
        offset + 136 <= m.len() ==> keccak_pad(m).skip(offset).skip(136) == keccak_pad(m).skip(
            offset + 136,
        ),
        offset + 136 <= m.len() ==> keccak_pad(m).skip(offset).len() >= 136,
        m.len() < offset + 136 ==> m.len() % 136 == m.len() - offset,
{
    let p = keccak_pad(m);
    let q = 136 - m.len() % 136;
    assert(p.len() == m.len() + q);
    if offset + 136 <= m.len() {
        assert(p.skip(offset).take(136) =~= m.subrange(offset, offset + 136));
        assert(p.skip(offset).skip(136) =~= p.skip(offset + 136));
    }
    if m.len() < offset + 136 {
        assert(m.len() == offset + (m.len() - offset));
        vstd::arithmetic::div_mod::lemma_fundamental_div_mod_converse(
            m.len() as int, 136, offset / 136, m.len() - offset);
    }
}

/// Minimal keccak256 (Keccak's own 0x01 padding, not SHA-3's).
pub fn keccak256(input: &[u8]) -> (r: [u8; 32])
    ensures
        r@ == keccak256_spec(input@),
{
    let ghost m = input@;
    let len = input.len();
    let mut state = [0u64; 25];
    let mut offset: usize = 0;
    assert(state@ =~= zero_state());
    assert(keccak_pad(m).skip(0) =~= keccak_pad(m));
    while len - offset >= 136
        invariant
            len == m.len(),
            m == input@,
            offset <= len,
            offset % 136 == 0,
            absorb(zero_state(), keccak_pad(m)) == absorb(state@, keccak_pad(m).skip(offset as int)),
        decreases len - offset,
    {
        proof { lemma_pad_facts(m, offset as int); }
        let ghost before = state@;
        absorb_block(&mut state, input, offset);
        offset = offset + 136;
    }
    proof { lemma_pad_facts(m, offset as int); }
    // Pad the last block.
    let remaining = len - offset;
    let mut last = [0u8; 136];
    let mut i: usize = 0;
    while i < remaining
        invariant
            remaining == len - offset,
            remaining < 136,
            offset + remaining == len,
            len == m.len(),
            m == input@,
            i <= remaining,
            last@.len() == 136,
            forall|j: int| 0 <= j < i ==> last@[j] == m[offset + j],
            forall|j: int| i <= j < 136 ==> last@[j] == 0,
        decreases remaining - i,
    {
        last[i] = input[offset + i];
        i = i + 1;
    }
    last[remaining] = 0x01;
    last[135] = last[135] | 0x80;
    proof {
        let p = keccak_pad(m);
        assert(p.skip(offset as int) =~= last@) by {
            if remaining == 135 {
                assert(0x01u8 | 0x80u8 == 0x81u8) by (bit_vector);
            } else {
                assert(0u8 | 0x80u8 == 0x80u8) by (bit_vector);
            }
        }
        assert(last@.subrange(0, 136) =~= last@);
        assert(last@.skip(136).len() == 0);
    }
    let ghost before = state@;
    absorb_block(&mut state, &last, 0);
    proof {
        let p = keccak_pad(m);
        let rest = p.skip(offset as int);
        assert(rest.take(136) =~= last@.subrange(0, 136));
        assert(rest.skip(136).len() == 0);
        assert(absorb(before, rest) == absorb(keccak_f(xor_block(before, rest.take(136))), rest.skip(136)));
        assert(absorb(state@, rest.skip(136)) == state@);
        assert(absorb(zero_state(), p) == state@);
    }
    // Squeeze 32 bytes.
    let mut out = [0u8; 32];
    let mut j: usize = 0;
    while j < 32
        invariant
            j <= 32,
            out@.len() == 32,
            forall|k: int| 0 <= k < j ==> out@[k] == squeeze(state@)[k],
        decreases 32 - j,
    {
        let sh: u64 = (8 * (j % 8)) as u64;
        out[j] = (state[j / 8] >> sh) as u8;
        j = j + 1;
    }
    assert(out@ =~= squeeze(state@));
    out
}

} // verus!
