//! Bits and bit fields of a 32-bit register word.
//!
//! A field is a run of `width` adjacent bits whose lowest bit is at
//! `offset`. The spec functions say what a word, a bit or a field is; the
//! lemmas relate them, bit by bit.

use vstd::prelude::*;

verus! {

/// The word whose low `width` bits are set and whose other bits are clear.
pub open spec fn low_mask(width: u32) -> u32
    recommends
        1 <= width <= 32,
{
    0xffff_ffffu32 >> ((32 - width) as u32)
}

/// Whether bit `index` of `word` is set.
pub open spec fn bit(word: u32, index: u32) -> bool
    recommends
        index < 32,
{
    (word >> index) & 1 == 1
}

/// `word` with bit `index` set to `value` and every other bit as it was.
pub open spec fn with_bit(word: u32, index: u32, value: bool) -> u32
    recommends
        index < 32,
{
    if value {
        word | (1u32 << index)
    } else {
        word & !(1u32 << index)
    }
}

/// The number held by the field of `width` bits at `offset`.
pub open spec fn field(word: u32, offset: u32, width: u32) -> u32
    recommends
        1 <= width,
        offset + width <= 32,
{
    (word >> offset) & low_mask(width)
}

/// `word` with the field of `width` bits at `offset` holding the low `width`
/// bits of `value`, and every bit outside the field as it was.
pub open spec fn with_field(word: u32, offset: u32, width: u32, value: u32) -> u32
    recommends
        1 <= width,
        offset + width <= 32,
{
    (word & !(low_mask(width) << offset)) | ((value & low_mask(width)) << offset)
}

/// Whether `value` fits in `width` bits.
pub open spec fn fits(value: u32, width: u32) -> bool
    recommends
        1 <= width <= 32,
{
    value <= low_mask(width)
}

/// Writing a bit changes that bit to the value written and no other bit.
pub proof fn lemma_bit_of_with_bit(word: u32, index: u32, value: bool, i: u32)
    requires
        index < 32,
        i < 32,
    ensures
        bit(with_bit(word, index, value), i) == (if i == index {
            value
        } else {
            bit(word, i)
        }),
{
    assert(bit(word | (1u32 << index), i) == (if i == index {
        true
    } else {
        bit(word, i)
    })) by (bit_vector)
        requires
            index < 32,
            i < 32,
    ;
    assert(bit(word & !(1u32 << index), i) == (if i == index {
        false
    } else {
        bit(word, i)
    })) by (bit_vector)
        requires
            index < 32,
            i < 32,
    ;
}

/// Writing a field puts the bits of the value into the field, lowest bit
/// first, and changes no bit outside it.
pub proof fn lemma_bit_of_with_field(word: u32, offset: u32, width: u32, value: u32, i: u32)
    requires
        1 <= width,
        offset + width <= 32,
        i < 32,
    ensures
        bit(with_field(word, offset, width, value), i) == (if offset <= i < offset + width {
            bit(value, (i - offset) as u32)
        } else {
            bit(word, i)
        }),
{
    assert(bit(with_field(word, offset, width, value), i) == (if offset <= i && i < offset
        + width {
        bit(value, (i - offset) as u32)
    } else {
        bit(word, i)
    })) by (bit_vector)
        requires
            1 <= width,
            offset + width <= 32,
            i < 32,
    ;
}

/// A field holds what was last written to it, cut to the field's width.
pub proof fn lemma_field_of_with_field(word: u32, offset: u32, width: u32, value: u32)
    requires
        1 <= width,
        offset + width <= 32,
    ensures
        field(with_field(word, offset, width, value), offset, width) == value & low_mask(width),
        fits(value, width) ==> field(with_field(word, offset, width, value), offset, width)
            == value,
{
    assert(field(with_field(word, offset, width, value), offset, width) == value & low_mask(
        width,
    )) by (bit_vector)
        requires
            1 <= width,
            offset + width <= 32,
    ;
    assert(value <= low_mask(width) ==> value & low_mask(width) == value) by (bit_vector)
        requires
            1 <= width <= 32,
    ;
}

/// Writing one field leaves every field that does not overlap it as it was.
pub proof fn lemma_field_apart(
    word: u32,
    offset: u32,
    width: u32,
    value: u32,
    other_offset: u32,
    other_width: u32,
)
    requires
        1 <= width,
        offset + width <= 32,
        1 <= other_width,
        other_offset + other_width <= 32,
        other_offset + other_width <= offset || offset + width <= other_offset,
    ensures
        field(with_field(word, offset, width, value), other_offset, other_width) == field(
            word,
            other_offset,
            other_width,
        ),
{
    assert(field(with_field(word, offset, width, value), other_offset, other_width) == field(
        word,
        other_offset,
        other_width,
    )) by (bit_vector)
        requires
            1 <= width,
            offset + width <= 32,
            1 <= other_width,
            other_offset + other_width <= 32,
            other_offset + other_width <= offset || offset + width <= other_offset,
    ;
}

/// Writing the other value to a bit and then the value that the bit held
/// gives the word back.
pub proof fn lemma_with_bit_undone(word: u32, index: u32, value: bool)
    requires
        index < 32,
        bit(word, index) == value,
    ensures
        with_bit(with_bit(word, index, !value), index, value) == word,
{
    assert(bit(word, index) ==> (word & !(1u32 << index)) | (1u32 << index) == word)
        by (bit_vector)
        requires
            index < 32,
    ;
    assert(!bit(word, index) ==> (word | (1u32 << index)) & !(1u32 << index) == word)
        by (bit_vector)
        requires
            index < 32,
    ;
}

/// The masks of the narrow fields, as numbers.
pub proof fn lemma_low_masks()
    ensures
        low_mask(1) == 1,
        low_mask(2) == 3,
        low_mask(3) == 7,
        low_mask(4) == 15,
        low_mask(5) == 31,
{
    assert(low_mask(1) == 1 && low_mask(2) == 3 && low_mask(3) == 7 && low_mask(4) == 15
        && low_mask(5) == 31) by (bit_vector);
}

/// Reads bit `index` of `word`.
pub fn read_bit(word: u32, index: u32) -> (set: bool)
    requires
        index < 32,
    ensures
        set == bit(word, index),
{
    (word >> index) & 1 == 1
}

/// Returns `word` with bit `index` set to `value`: an OR with the one-bit
/// mask to set it, an AND with the mask's complement to clear it.
pub fn write_bit(word: u32, index: u32, value: bool) -> (out: u32)
    requires
        index < 32,
    ensures
        out == with_bit(word, index, value),
        forall|i: u32|
            i < 32 ==> #[trigger] bit(out, i) == (if i == index {
                value
            } else {
                bit(word, i)
            }),
{
    let out: u32 = if value {
        word | (1u32 << index)
    } else {
        word & !(1u32 << index)
    };
    proof {
        assert forall|i: u32| i < 32 implies #[trigger] bit(out, i) == (if i == index {
            value
        } else {
            bit(word, i)
        }) by {
            lemma_bit_of_with_bit(word, index, value, i);
        }
    }
    out
}

/// Reads the field of `width` bits at `offset`.
pub fn read_field(word: u32, offset: u32, width: u32) -> (value: u32)
    requires
        1 <= width,
        offset + width <= 32,
    ensures
        value == field(word, offset, width),
        fits(value, width),
{
    let mask: u32 = 0xffff_ffffu32 >> (32 - width);
    let value: u32 = (word >> offset) & mask;
    proof {
        assert((word >> offset) & mask <= mask) by (bit_vector);
    }
    value
}

/// Returns `word` with the field of `width` bits at `offset` replaced by the
/// low `width` bits of `value`.
pub fn write_field(word: u32, offset: u32, width: u32, value: u32) -> (out: u32)
    requires
        1 <= width,
        offset + width <= 32,
    ensures
        out == with_field(word, offset, width, value),
        field(out, offset, width) == value & low_mask(width),
        forall|i: u32|
            i < 32 && !(offset <= i < offset + width) ==> #[trigger] bit(out, i) == bit(word, i),
{
    let mask: u32 = 0xffff_ffffu32 >> (32 - width);
    let out: u32 = (word & !(mask << offset)) | ((value & mask) << offset);
    proof {
        lemma_field_of_with_field(word, offset, width, value);
        assert forall|i: u32| i < 32 && !(offset <= i < offset + width) implies #[trigger] bit(
            out,
            i,
        ) == bit(word, i) by {
            lemma_bit_of_with_field(word, offset, width, value, i);
        }
    }
    out
}

} // verus!
