//! Bit-level codec for 16-bit device registers.
//!
//! Every register of the device is 16 bits wide and is carried on the wire
//! as two bytes, least-significant byte first. A bitfield is a contiguous
//! range of bits inside the register word; this module defines how a field
//! value is extracted from and merged into a register word, and proves the
//! laws the rest of the crate relies on: a written field reads back as
//! written, and writing a field leaves every bit outside the field as it
//! was.

use vstd::prelude::*;

verus! {

/// Mask with the low `width` bits set.
pub open spec fn low_mask(width: u16) -> u16 {
    if width >= 16 {
        0xffffu16
    } else {
        ((1u16 << width) - 1) as u16
    }
}

/// Value of the field of `width` bits starting at bit `lo` of `bits`.
pub open spec fn get_field(bits: u16, lo: u16, width: u16) -> u16 {
    (bits >> lo) & low_mask(width)
}

/// `bits` with the field of `width` bits starting at bit `lo` replaced by
/// `v` (truncated to the field width); all other bits are kept.
pub open spec fn set_field(bits: u16, lo: u16, width: u16, v: u16) -> u16 {
    (bits & !(low_mask(width) << lo)) | ((v & low_mask(width)) << lo)
}

/// Bit `i` of `bits`.
pub open spec fn get_bit(bits: u16, i: u16) -> u16 {
    (bits >> i) & 1
}

/// Low byte of a register word: the first byte on the wire.
pub open spec fn lo_byte(w: u16) -> u8 {
    (w & 0xff) as u8
}

/// High byte of a register word: the second byte on the wire.
pub open spec fn hi_byte(w: u16) -> u8 {
    (w >> 8) as u8
}

/// Register word formed from its two wire bytes, least-significant first.
pub open spec fn word_of(b0: u8, b1: u8) -> u16 {
    (b0 as u16) | ((b1 as u16) << 8)
}

pub fn low_mask_exec(width: u16) -> (r: u16)
    requires
        width <= 16,
    ensures
        r == low_mask(width),
{
    if width >= 16 {
        0xffffu16
    } else {
        proof {
            assert(1u16 << width >= 1) by (bit_vector)
                requires
                    width < 16,
            ;
        }
        (1u16 << width) - 1
    }
}

pub fn get_field_exec(bits: u16, lo: u16, width: u16) -> (r: u16)
    requires
        lo < 16,
        1 <= width,
        lo + width <= 16,
    ensures
        r == get_field(bits, lo, width),
{
    (bits >> lo) & low_mask_exec(width)
}

pub fn set_field_exec(bits: u16, lo: u16, width: u16, v: u16) -> (r: u16)
    requires
        lo < 16,
        1 <= width,
        lo + width <= 16,
    ensures
        r == set_field(bits, lo, width, v),
{
    let m = low_mask_exec(width);
    (bits & !(m << lo)) | ((v & m) << lo)
}

pub fn lo_byte_exec(w: u16) -> (r: u8)
    ensures
        r == lo_byte(w),
{
    (w & 0xff) as u8
}

pub fn hi_byte_exec(w: u16) -> (r: u8)
    ensures
        r == hi_byte(w),
{
    (w >> 8) as u8
}

pub fn word_of_exec(b0: u8, b1: u8) -> (r: u16)
    ensures
        r == word_of(b0, b1),
{
    (b0 as u16) | ((b1 as u16) << 8)
}

/// Round trip: a value written into a field reads back as written, for
/// every value representable in the field's width and every prior register
/// content.
pub proof fn lemma_field_roundtrip(bits: u16, lo: u16, width: u16, v: u16)
    by (bit_vector)
    requires
        lo < 16,
        1 <= width,
        lo + width <= 16,
        v & low_mask(width) == v,
    ensures
        get_field(set_field(bits, lo, width, v), lo, width) == v,
{
}

/// Writing one field leaves every bit outside that field unchanged, for
/// arbitrary prior register contents.
pub proof fn lemma_set_field_preserves_bit(bits: u16, lo: u16, width: u16, v: u16, i: u16)
    by (bit_vector)
    requires
        lo < 16,
        1 <= width,
        lo + width <= 16,
        i < 16,
        !(lo <= i < lo + width),
    ensures
        get_bit(set_field(bits, lo, width, v), i) == get_bit(bits, i),
{
}

/// Writing one field leaves every other (disjoint) field unchanged, for
/// arbitrary prior register contents.
pub proof fn lemma_set_field_preserves_field(
    bits: u16,
    lo: u16,
    width: u16,
    v: u16,
    lo2: u16,
    width2: u16,
)
    by (bit_vector)
    requires
        lo < 16,
        1 <= width,
        lo + width <= 16,
        lo2 < 16,
        1 <= width2,
        lo2 + width2 <= 16,
        lo + width <= lo2 || lo2 + width2 <= lo,
    ensures
        get_field(set_field(bits, lo, width, v), lo2, width2) == get_field(bits, lo2, width2),
{
}

/// Splitting a word into its two wire bytes and joining them again gives
/// the word back, and joining two bytes then splitting gives the bytes.
pub proof fn lemma_bytes_roundtrip(w: u16, b0: u8, b1: u8)
    by (bit_vector)
    ensures
        word_of(lo_byte(w), hi_byte(w)) == w,
        lo_byte(word_of(b0, b1)) == b0,
        hi_byte(word_of(b0, b1)) == b1,
{
}

/// Round trip over the wire: writing a field sends the updated word as two
/// bytes; a bus that echoes those bytes back hands the word whose field
/// decodes to the value just written, for every representable value and
/// every prior register content.
pub proof fn lemma_field_roundtrip_via_wire(bits: u16, lo: u16, width: u16, v: u16)
    requires
        lo < 16,
        1 <= width,
        lo + width <= 16,
        v & low_mask(width) == v,
    ensures
        get_field(
            word_of(lo_byte(set_field(bits, lo, width, v)), hi_byte(set_field(bits, lo, width, v))),
            lo,
            width,
        ) == v,
{
    lemma_bytes_roundtrip(set_field(bits, lo, width, v), 0, 0);
    lemma_field_roundtrip(bits, lo, width, v);
}

} // verus!
