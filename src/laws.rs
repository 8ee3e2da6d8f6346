//! Properties that relate several operations of the value type.
use vstd::prelude::*;

use crate::text::{
    all_hex, decode_digits, grouped_digits, has_urn_prefix, hex_char, hex_value, hyphenated_text,
    nibble, parsed_text, simple_text, text_digits, urn_prefix, urn_text,
};
use crate::value::{
    be_bytes, be_value, fields_of, octet, pack_fields, swap_le, variant_of, version_of, versioned,
    Variant, KEEP_MASK,
};

verus! {

proof fn lemma_unpack_pack(v: u128)
    by (bit_vector)
    ensures
        ((v >> 120u32) as u8 as u128) << 120u32 | ((v >> 112u32) as u8 as u128) << 112u32 | ((v
            >> 104u32) as u8 as u128) << 104u32 | ((v >> 96u32) as u8 as u128) << 96u32 | ((v
            >> 88u32) as u8 as u128) << 88u32 | ((v >> 80u32) as u8 as u128) << 80u32 | ((v
            >> 72u32) as u8 as u128) << 72u32 | ((v >> 64u32) as u8 as u128) << 64u32 | ((v
            >> 56u32) as u8 as u128) << 56u32 | ((v >> 48u32) as u8 as u128) << 48u32 | ((v
            >> 40u32) as u8 as u128) << 40u32 | ((v >> 32u32) as u8 as u128) << 32u32 | ((v
            >> 24u32) as u8 as u128) << 24u32 | ((v >> 16u32) as u8 as u128) << 16u32 | ((v
            >> 8u32) as u8 as u128) << 8u32 | ((v >> 0u32) as u8 as u128) == v,
{
}

/// Reading back the sixteen network-order octets of a value gives the value.
pub proof fn lemma_bytes_round_trip(v: u128)
    ensures
        be_value(be_bytes(v)) == v,
{
    lemma_unpack_pack(v);
}

/// Swapping the first three groups twice restores the octets.
pub proof fn lemma_swap_le_involutive(b: Seq<u8>)
    requires
        b.len() == 16,
    ensures
        swap_le(swap_le(b)) == b,
{
    assert(swap_le(swap_le(b)) =~= b);
}

/// Reading back the little-endian octets of a value, with the groups swapped
/// back, gives the value.
pub proof fn lemma_bytes_le_round_trip(v: u128)
    ensures
        be_value(swap_le(swap_le(be_bytes(v)))) == v,
{
    lemma_swap_le_involutive(be_bytes(v));
    lemma_bytes_round_trip(v);
}

/// Packing the six fields of a value gives the value.
pub proof fn lemma_fields_round_trip(v: u128)
    ensures
        pack_fields(fields_of(v)) == v,
{
    assert(((v >> 96u32) as u32 as u128) << 96u32 | ((v >> 80u32) as u16 as u128) << 80u32 | ((v
        >> 64u32) as u16 as u128) << 64u32 | ((((v >> 56u32) as u8 as u128) << 8u32 | (v
        >> 48u32) as u8 as u128) << 48u32) | ((v & 0xffff_ffff_ffffu128) as u64 as u128) == v)
        by (bit_vector);
}

/// A value made with version `k` (1 to 8) has version `k` and the RFC 4122
/// variant.
pub proof fn lemma_versioned_reads_back(v: u128, k: u8)
    requires
        1 <= k <= 8,
    ensures
        version_of(versioned(v, k)) == k,
        variant_of(versioned(v, k)) == Variant::Rfc4122,
{
    assert((((v & 0xffff_ffff_ffff_0fff_3fff_ffff_ffff_ffffu128) | ((k as u128) << 76u32)
        | 0x8000_0000_0000_0000u128) >> 76u32) & 0xf == k as u128) by (bit_vector)
        requires
            k <= 8,
    ;
    let b: u8 = (((v & 0xffff_ffff_ffff_0fff_3fff_ffff_ffff_ffffu128) | ((k as u128) << 76u32)
        | 0x8000_0000_0000_0000u128) >> 56u32) as u8;
    assert(b & 0x80 != 0 && b & 0xc0 == 0x80) by (bit_vector)
        requires
            k <= 8,
            b == (((v & 0xffff_ffff_ffff_0fff_3fff_ffff_ffff_ffffu128) | ((k as u128) << 76u32)
                | 0x8000_0000_0000_0000u128) >> 56u32) as u8,
    ;
}

/// Setting a version keeps every bit outside the version nibble and the two
/// variant bits.
pub proof fn lemma_versioned_keeps_other_bits(v: u128, k: u8)
    requires
        k < 16,
    ensures
        versioned(v, k) & KEEP_MASK == v & KEEP_MASK,
{
    assert((((v & 0xffff_ffff_ffff_0fff_3fff_ffff_ffff_ffffu128) | ((k as u128) << 76u32)
        | 0x8000_0000_0000_0000u128) & 0xffff_ffff_ffff_0fff_3fff_ffff_ffff_ffffu128) == v
        & 0xffff_ffff_ffff_0fff_3fff_ffff_ffff_ffffu128) by (bit_vector)
        requires
            k < 16,
    ;
}

proof fn lemma_octet_halves(b: u8)
    by (bit_vector)
    ensures
        b >> 4u8 < 16,
        b & 0xf < 16,
        (b >> 4u8) * 16 + (b & 0xf) == b,
{
}

proof fn lemma_hex_digit_round_trip(d: u8)
    requires
        d < 16,
    ensures
        hex_value(hex_char(d)) == d,
{
}

/// Each character of the simple form is a digit, whose value is the nibble.
proof fn lemma_simple_text_digits(v: u128)
    ensures
        forall|i: int| 0 <= i < 32 ==> hex_value(#[trigger] simple_text(v)[i]) == nibble(v, i),
{
    assert forall|i: int| 0 <= i < 32 implies hex_value(#[trigger] simple_text(v)[i]) == nibble(
        v,
        i,
    ) by {
        lemma_octet_halves(octet(v, i / 2));
        lemma_hex_digit_round_trip(nibble(v, i));
    }
}

/// Parsing the simple, the hyphenated or the URN form of a value gives the value.
pub proof fn lemma_text_round_trip(v: u128)
    ensures
        parsed_text(simple_text(v)) == Some(v),
        parsed_text(hyphenated_text(v)) == Some(v),
        parsed_text(urn_text(v)) == Some(v),
{
    let s = simple_text(v);
    lemma_simple_text_digits(v);
    assert(all_hex(s));
    assert forall|j: int| 0 <= j < 16 implies #[trigger] decode_digits(s)[j] == be_bytes(v)[j] by {
        assert((2 * j) / 2 == j && (2 * j) % 2 == 0);
        assert((2 * j + 1) / 2 == j && (2 * j + 1) % 2 == 1);
        lemma_octet_halves(octet(v, j));
    }
    assert(decode_digits(s) =~= be_bytes(v));
    lemma_bytes_round_trip(v);
    assert(text_digits(s) == Some(s));

    let h = hyphenated_text(v);
    assert(h.subrange(0, 8) + h.subrange(9, 13) + h.subrange(14, 18) + h.subrange(19, 23)
        + h.subrange(24, 36) =~= s);
    assert(grouped_digits(h) == Some(s));

    let u = urn_text(v);
    assert(u.subrange(9, 45) =~= h);
    assert forall|i: int| 0 <= i < 9 implies u[i] == urn_prefix()[i] by {}
    assert(has_urn_prefix(u));
}

/// Every codec reads back what it wrote: network-order octets, little-endian
/// octets, the simple, hyphenated and URN texts, and the six fields.
pub proof fn lemma_codecs_round_trip(v: u128)
    ensures
        be_value(be_bytes(v)) == v,
        be_value(swap_le(swap_le(be_bytes(v)))) == v,
        parsed_text(simple_text(v)) == Some(v),
        parsed_text(hyphenated_text(v)) == Some(v),
        parsed_text(urn_text(v)) == Some(v),
        pack_fields(fields_of(v)) == v,
{
    lemma_bytes_le_round_trip(v);
    lemma_text_round_trip(v);
    lemma_fields_round_trip(v);
}

} // verus!
