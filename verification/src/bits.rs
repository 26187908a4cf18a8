//! Bitfield extraction and insertion on single register bytes, and the
//! binary-coded-decimal codec used by all calendar registers.

use vstd::prelude::*;

verus! {

/// The decimal value carried by a packed binary-coded-decimal byte: the high
/// nibble is the tens digit, the low nibble the ones digit.
pub open spec fn spec_decode_bcd(b: u8) -> u8 {
    ((((b >> 4) & 0xf) * 10 + (b & 0xf)) as u8)
}

/// The packed binary-coded-decimal byte for a value below 100: the tens digit
/// in the high nibble, the ones digit in the low nibble.
pub open spec fn spec_encode_bcd(x: u8) -> u8
    recommends
        x < 100,
{
    ((x / 10) << 4) | (x % 10)
}

/// The `bits`-wide field of `byte` that starts `lsb_offset` bits above the
/// least significant bit, right-aligned.
pub open spec fn spec_get_bits(byte: u8, bits: u8, lsb_offset: u8) -> u8
    recommends
        1 <= bits,
        lsb_offset + bits <= 8,
{
    (byte >> lsb_offset) & (0xffu8 >> ((8 - bits) as u8))
}

/// `byte` with the bits selected by `mask` cleared and replaced by `data`
/// shifted into place and truncated to the mask.
pub open spec fn spec_set_bits(byte: u8, data: u8, lsb_offset: u8, mask: u8) -> u8
    recommends
        lsb_offset < 8,
{
    (byte & !mask) | ((data << lsb_offset) & mask)
}

/// The mask with exactly the `bits`-wide field at `lsb_offset` set.
pub open spec fn spec_field_mask(bits: u8, lsb_offset: u8) -> u8
    recommends
        1 <= bits,
        lsb_offset + bits <= 8,
{
    (0xffu8 >> ((8 - bits) as u8)) << lsb_offset
}

/// Decode a packed binary-coded-decimal byte. Total: an out-of-range nibble
/// simply contributes its face value.
pub fn decode_bcd(a: u8) -> (r: u8)
    ensures
        r == spec_decode_bcd(a),
{
    proof {
        assert(((a >> 4) & 0xf) * 10 + (a & 0xf) <= 165) by (bit_vector);
    }
    (((a >> 4) & 0xf) * 10) + (a & 0xf)
}

/// Encode a value below 100 as a packed binary-coded-decimal byte. Values of
/// 100 and above are a programmer error and are ruled out by the precondition,
/// so no call that verifies can reach one.
pub fn encode_bcd(a: u8) -> (r: u8)
    requires
        a < 100,
    ensures
        r == spec_encode_bcd(a),
{
    ((a / 10) << 4) | (a % 10)
}

/// Extract the `bits`-wide field of `byte` starting at `lsb_offset`,
/// right-aligned.
pub fn get_bits(byte: u8, bits: u8, lsb_offset: u8) -> (r: u8)
    requires
        1 <= bits,
        lsb_offset + bits <= 8,
    ensures
        r == spec_get_bits(byte, bits, lsb_offset),
{
    (byte >> lsb_offset) & (0xffu8 >> (8 - bits))
}

/// Clear the bits of `byte` selected by `mask`, then or in `data` shifted to
/// `lsb_offset` and truncated to the mask.
pub fn set_bits(byte: &mut u8, data: u8, lsb_offset: u8, mask: u8)
    requires
        lsb_offset < 8,
    ensures
        *final(byte) == spec_set_bits(*old(byte), data, lsb_offset, mask),
{
    *byte = *byte & !mask;
    *byte = *byte | ((data << lsb_offset) & mask);
}

/// Law: decoding inverts encoding on every value the encoder accepts.
pub proof fn lemma_bcd_decode_encode(x: u8)
    requires
        x < 100,
    ensures
        spec_decode_bcd(spec_encode_bcd(x)) == x,
{
    assert(((((((x / 10) << 4) | (x % 10)) >> 4) & 0xf) * 10
        + ((((x / 10) << 4) | (x % 10)) & 0xf)) as u8 == x) by (bit_vector)
        requires
            x < 100,
    ;
}

/// Law: encoding inverts decoding on every byte whose two nibbles are decimal
/// digits.
pub proof fn lemma_bcd_encode_decode(b: u8)
    requires
        (b >> 4) & 0xf <= 9,
        b & 0xf <= 9,
    ensures
        spec_encode_bcd(spec_decode_bcd(b)) == b,
{
    assert({
        let d = (((b >> 4) & 0xf) * 10 + (b & 0xf)) as u8;
        ((d / 10) << 4) | (d % 10) == b
    }) by (bit_vector)
        requires
            (b >> 4) & 0xf <= 9,
            b & 0xf <= 9,
    ;
}

/// Law: after inserting `data` into the field whose aligned mask is
/// `spec_field_mask(bits, lsb_offset)`, extracting that field returns `data`,
/// provided `data` fits in the field.
pub proof fn lemma_get_bits_of_set_bits(byte: u8, data: u8, bits: u8, lsb_offset: u8)
    requires
        1 <= bits,
        lsb_offset + bits <= 8,
        data <= 0xffu8 >> ((8 - bits) as u8),
    ensures
        spec_get_bits(
            spec_set_bits(byte, data, lsb_offset, spec_field_mask(bits, lsb_offset)),
            bits,
            lsb_offset,
        ) == data,
{
    assert(spec_get_bits(
        spec_set_bits(byte, data, lsb_offset, spec_field_mask(bits, lsb_offset)),
        bits,
        lsb_offset,
    ) == data) by (bit_vector)
        requires
            1 <= bits,
            lsb_offset + bits <= 8,
            data <= 0xffu8 >> ((8 - bits) as u8),
    ;
}

/// Law: inserting a field leaves every bit outside the mask unchanged.
pub proof fn lemma_set_bits_preserves_outside_mask(byte: u8, data: u8, lsb_offset: u8, mask: u8)
    requires
        lsb_offset < 8,
    ensures
        spec_set_bits(byte, data, lsb_offset, mask) & !mask == byte & !mask,
{
    assert(((byte & !mask) | ((data << lsb_offset) & mask)) & !mask == byte & !mask)
        by (bit_vector);
}

} // verus!
