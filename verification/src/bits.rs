//! Small operations on 32-bit words that the shifter, the decoders and the
//! executors share: single bits, rotation, sums and differences modulo 2^32,
//! and the facts about masks that bound a decoded field.

use vstd::prelude::*;

verus! {

/// Bit `index` of `word`, bit 0 being the least significant.
pub open spec fn bit(word: u32, index: u32) -> bool {
    (word >> index) & 1 == 1
}

pub fn test_bit(word: u32, index: u32) -> (set: bool)
    requires
        index < 32,
    ensures
        set == bit(word, index),
{
    (word >> index) & 1 == 1
}

/// `word` rotated right by `amount` places; only `amount` modulo 32 counts.
pub open spec fn rotate_right_spec(word: u32, amount: u32) -> u32 {
    let places = amount % 32;
    if places == 0 {
        word
    } else {
        (word >> places) | (word << ((32 - places) as u32))
    }
}

/// `word` rotated left by `amount` places; only `amount` modulo 32 counts.
pub open spec fn rotate_left_spec(word: u32, amount: u32) -> u32 {
    let places = amount % 32;
    if places == 0 {
        word
    } else {
        (word << places) | (word >> ((32 - places) as u32))
    }
}

pub fn rotate_right(word: u32, amount: u32) -> (rotated: u32)
    ensures
        rotated == rotate_right_spec(word, amount),
{
    let places: u32 = amount % 32;
    if places == 0 {
        word
    } else {
        let back: u32 = 32 - places;
        (word >> places) | (word << back)
    }
}

pub fn rotate_left(word: u32, amount: u32) -> (rotated: u32)
    ensures
        rotated == rotate_left_spec(word, amount),
{
    let places: u32 = amount % 32;
    if places == 0 {
        word
    } else {
        let back: u32 = 32 - places;
        (word << places) | (word >> back)
    }
}

/// The sum of two words modulo 2^32.
pub open spec fn wrapping_add_spec(a: u32, b: u32) -> u32 {
    ((a + b) % 0x1_0000_0000) as u32
}

/// The difference of two words modulo 2^32.
pub open spec fn wrapping_sub_spec(a: u32, b: u32) -> u32 {
    ((a - b) % 0x1_0000_0000) as u32
}

pub fn wrapping_add(a: u32, b: u32) -> (sum: u32)
    ensures
        sum == wrapping_add_spec(a, b),
{
    a.wrapping_add(b)
}

pub fn wrapping_sub(a: u32, b: u32) -> (difference: u32)
    ensures
        difference == wrapping_sub_spec(a, b),
{
    a.wrapping_sub(b)
}

/// Rotating left and then right by the same amount gives the word back.
pub proof fn lemma_rotate_left_right(word: u32, amount: u32)
    ensures
        rotate_right_spec(rotate_left_spec(word, amount), amount) == word,
{
    let places = amount % 32;
    if places != 0 {
        lemma_rotate_round(word, places);
    }
}

/// Rotating right and then left by the same amount gives the word back.
pub proof fn lemma_rotate_right_left(word: u32, amount: u32)
    ensures
        rotate_left_spec(rotate_right_spec(word, amount), amount) == word,
{
    let places = amount % 32;
    if places != 0 {
        lemma_rotate_round(word, places);
    }
}

proof fn lemma_rotate_round(word: u32, places: u32)
    by (bit_vector)
    requires
        0 < places < 32,
    ensures
        ({
            let left = (word << places) | (word >> ((32 - places) as u32));
            (left >> places) | (left << ((32 - places) as u32))
        }) == word,
        ({
            let right = (word >> places) | (word << ((32 - places) as u32));
            (right << places) | (right >> ((32 - places) as u32))
        }) == word,
{
}

/// Bounds of the fields that the decoders cut out of an encoding.
pub proof fn lemma_field_bounds(word: u32)
    by (bit_vector)
    ensures
        word & 0xF < 16,
        (word >> 8) & 0xF < 16,
        (word >> 12) & 0xF < 16,
        (word >> 16) & 0xF < 16,
        (word >> 21) & 0xF < 16,
        word & 0x7 < 8,
        (word >> 3) & 0x7 < 8,
        (word >> 6) & 0x7 < 8,
        (word >> 8) & 0x7 < 8,
        (word >> 3) & 0xF < 16,
        (word >> 7) & 0x1F < 32,
        (word >> 6) & 0x1F < 32,
        (word >> 5) & 0x3 < 4,
        (word >> 11) & 0x3 < 4,
        (word >> 8) & 0x3 < 4,
        (word >> 6) & 0xF < 16,
        word & 0xFF < 256,
{
}

} // verus!
