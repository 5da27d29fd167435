use vstd::prelude::*;

verus! {

/// Vendor constants of the infotainment module.
pub const DC0314_CONSTANTS: [u8; 5] = [0x65, 0xF8, 0x24, 0xAC, 0x8F];

/// The value that the shift register starts from.
pub const REGISTER_START: u32 = 0xC541A9;

/// The register bits that the feedback does not touch.
pub const FEEDBACK_MASK: u32 = 0xEF6FD7;

/// The first input word: the first constant in the high byte, then the three
/// seed bytes in reverse order.
pub open spec fn seed_word(c0: u8, seed: u32) -> u32 {
    let s = seed & 0xFFFFFF;
    ((c0 as u32) << 24) | ((s & 0xFF) << 16) | (s & 0xFF00) | ((s >> 16) & 0xFF)
}

/// The second input word: the last four constants, the last one in the high
/// byte.
pub open spec fn constant_word(c1: u8, c2: u8, c3: u8, c4: u8) -> u32 {
    ((c4 as u32) << 24) | ((c3 as u32) << 16) | ((c2 as u32) << 8) | (c1 as u32)
}

/// One update of the register with the input bit `bit`: the register moves
/// one place down, the input bit combined with the bit that left enters at
/// the top, and the five taps at 20, 15, 12, 5 and 3 are combined with it.
pub open spec fn register_step(r: u32, bit: u32) -> u32 {
    let f = bit ^ (r & 1);
    let shifted = (f << 23) | (r >> 1);
    let old = r >> 1;
    let hb = (shifted >> 23) & 1;
    (shifted & FEEDBACK_MASK)
        | ((((shifted >> 20) & 1) ^ hb) << 20)
        | ((((old >> 15) & 1) ^ hb) << 15)
        | ((((old >> 12) & 1) ^ hb) << 12)
        | ((((old >> 5) & 1) ^ hb) << 5)
        | ((((old >> 3) & 1) ^ hb) << 3)
}

/// The register after the lowest `n` bits of `word` went in, lowest first.
pub open spec fn register_run(r: u32, word: u32, n: nat) -> u32
    decreases n,
{
    if n == 0 {
        r
    } else {
        register_step(register_run(r, word, (n - 1) as nat), (word >> ((n - 1) as u32)) & 1)
    }
}

/// The 24 bits of the key, picked from the final register.
pub open spec fn key_order(r: u32) -> u32 {
    ((r & 0xF0000) >> 16)
        | ((r & 0xF) << 4)
        | ((((r >> 20) & 0xF) | ((r >> 12) & 0xF0)) << 8)
        | (((r >> 4) & 0xFF) << 16)
}

/// The key for a seed: both input words go through the register, which
/// starts from its fixed value, and the result is reordered and cut to 24
/// bits.
pub open spec fn key_of(seed: u32, constants: Seq<u8>) -> u32
    recommends
        constants.len() == 5,
{
    let first = register_run(REGISTER_START, seed_word(constants[0], seed), 32);
    let second = register_run(
        first,
        constant_word(constants[1], constants[2], constants[3], constants[4]),
        32,
    );
    key_order(second) & 0xFFFFFF
}

/// Every key fits into 24 bits.
pub proof fn lemma_key_is_24_bit(seed: u32, constants: Seq<u8>)
    ensures
        key_of(seed, constants) <= 0xFFFFFF,
{
    let first = register_run(REGISTER_START, seed_word(constants[0], seed), 32);
    let second = register_run(
        first,
        constant_word(constants[1], constants[2], constants[3], constants[4]),
        32,
    );
    let ordered = key_order(second);
    assert(ordered & 0xFFFFFF <= 0xFFFFFF) by (bit_vector);
}

/// Only the low 24 bits of a seed count.
pub proof fn lemma_key_ignores_high_seed_bits(seed: u32, constants: Seq<u8>)
    ensures
        key_of(seed, constants) == key_of(seed & 0xFFFFFF, constants),
{
    assert((seed & 0xFFFFFF) & 0xFFFFFF == seed & 0xFFFFFF) by (bit_vector);
}

fn step(r: u32, bit: u32) -> (next: u32)
    requires
        bit <= 1,
    ensures
        next == register_step(r, bit),
{
    assert((bit ^ (r & 1)) << 23u32 == (bit ^ (r & 1)) * 0x800000) by (bit_vector)
        requires
            bit <= 1,
    ;
    let shifted = ((bit ^ (r & 1)) << 0x17) | (r >> 1);
    let old = r >> 1;
    let hb = (shifted & 0x800000) >> 0x17;
    assert(hb <= 1 && hb == (shifted >> 23u32) & 1) by (bit_vector)
        requires
            hb == (shifted & 0x800000) >> 23u32,
    ;
    let t20 = (shifted & 0x100000) >> 0x14 ^ hb;
    let t15 = (old & 0x8000) >> 0xF ^ hb;
    let t12 = (old & 0x1000) >> 0xC ^ hb;
    let t5 = (old & 0x20) >> 5 ^ hb;
    let t3 = (old & 8) >> 3 ^ hb;
    assert(t20 == ((shifted >> 20u32) & 1) ^ hb && t15 == ((old >> 15u32) & 1) ^ hb && t12 == ((old
        >> 12u32) & 1) ^ hb && t5 <= 1 && t3 <= 1 && 0x20 * t5 == (((old >> 5u32) & 1) ^ hb) << 5u32
        && 8 * t3 == (((old >> 3u32) & 1) ^ hb) << 3u32) by (bit_vector)
        requires
            hb <= 1,
            t20 == ((shifted & 0x100000) >> 20u32) ^ hb,
            t15 == ((old & 0x8000) >> 15u32) ^ hb,
            t12 == ((old & 0x1000) >> 12u32) ^ hb,
            t5 == ((old & 0x20) >> 5u32) ^ hb,
            t3 == ((old & 8) >> 3u32) ^ hb,
    ;
    (shifted & FEEDBACK_MASK) | (t20 << 0x14) | (t15 << 0xF) | (t12 << 0xC) | (0x20 * t5) | (8 * t3)
}

fn run(start: u32, word: u32) -> (r: u32)
    ensures
        r == register_run(start, word, 32),
{
    let mut r = start;
    let mut i: u32 = 0;
    while i < 32
        invariant
            i <= 32,
            r == register_run(start, word, i as nat),
        decreases 32 - i,
    {
        let bit = word >> i & 1;
        assert(bit <= 1) by (bit_vector)
            requires
                bit == (word >> i) & 1,
        ;
        r = step(r, bit);
        i += 1;
    }
    r
}

/// The key that answers `seed`, of which the low 24 bits count, under the
/// five vendor constants.
pub fn keygen_mki(seed: u32, constants: &[u8; 5]) -> (key: u32)
    ensures
        key == key_of(seed, constants@),
        key <= 0xFFFFFF,
{
    let c0 = constants[0] as u32;
    let c1 = constants[1] as u32;
    let c2 = constants[2] as u32;
    let c3 = constants[3] as u32;
    let c4 = constants[4] as u32;

    let b1 = (seed >> 0x10) & 0xFF;
    let b2 = (seed >> 8) & 0xFF;
    let b3 = seed & 0xFF;
    assert((b1 << 16u32) <= 0xFF0000 && (b2 << 8u32) <= 0xFF00 && b3 <= 0xFF) by (bit_vector)
        requires
            b1 == (seed >> 16u32) & 0xFF,
            b2 == (seed >> 8u32) & 0xFF,
            b3 == seed & 0xFF,
    ;
    let s = (b1 << 0x10) + (b2 << 8) + b3;
    assert(s == seed & 0xFFFFFF) by (bit_vector)
        requires
            s == (((seed >> 16u32) & 0xFF) << 16u32) + (((seed >> 8u32) & 0xFF) << 8u32) + (seed
                & 0xFF),
    ;
    let first_word = ((s & 0xFF0000) >> 0x10) | (s & 0xFF00) | (c0 << 0x18) | ((s & 0xFF) << 0x10);
    assert(first_word == (c0 << 24u32) | ((s & 0xFF) << 16u32) | (s & 0xFF00) | ((s >> 16u32)
        & 0xFF)) by (bit_vector)
        requires
            s <= 0xFFFFFF,
            first_word == ((s & 0xFF0000) >> 16u32) | (s & 0xFF00) | (c0 << 24u32) | ((s & 0xFF)
                << 16u32),
    ;
    assert(s <= 0xFFFFFF) by (bit_vector)
        requires
            s == seed & 0xFFFFFF,
    ;
    let first = run(REGISTER_START, first_word);

    let second_word = (c4 << 0x18) | (c3 << 0x10) | c1 | (c2 << 8);
    assert(second_word == (c4 << 24u32) | (c3 << 16u32) | (c2 << 8u32) | c1) by (bit_vector)
        requires
            second_word == (c4 << 24u32) | (c3 << 16u32) | c1 | (c2 << 8u32),
    ;
    let second = run(first, second_word);

    let low = second & 0xF;
    assert(low <= 0xF) by (bit_vector)
        requires
            low == second & 0xF,
    ;
    let spread = 0x10 * low;
    let key = ((second & 0xF0000) >> 0x10)
        | spread
        | ((((second & 0xF00000) >> 0x14) | ((second >> 12) & 0xF0)) << 8)
        | (((second & 0xFF0) >> 4) << 0x10);
    assert(spread == (second & 0xF) << 4u32) by (bit_vector)
        requires
            low == second & 0xF,
            spread == 0x10 * low,
    ;
    assert(key == key_order(second)) by (bit_vector)
        requires
            spread == (second & 0xF) << 4u32,
            key == ((second & 0xF0000) >> 16u32) | spread | ((((second & 0xF00000) >> 20u32) | ((
            second >> 12u32) & 0xF0)) << 8u32) | (((second & 0xFF0) >> 4u32) << 16u32),
    ;
    assert(key & 0xFFFFFF <= 0xFFFFFF) by (bit_vector);
    key & 0xFFFFFF
}

} // verus!
