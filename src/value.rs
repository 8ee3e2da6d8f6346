use vstd::prelude::*;

verus! {

/// A 128-bit identifier. The value is never changed in place: every
/// operation that "sets" something returns a new value.
#[derive(Clone, Copy, Debug, PartialEq, Eq, Structural, PartialOrd, Ord, Hash)]
pub struct Uuid {
    value: u128,
}

/// The ways a construction or a query can fail.
#[derive(Clone, Copy, Debug, PartialEq, Eq, Structural)]
pub enum UuidError {
    /// The text is not one of the accepted textual forms.
    Format,
    /// A byte sequence does not hold exactly sixteen bytes.
    Length,
    /// No source or more than one source was given, or the version is not 1 to 8.
    Argument,
    /// The value's version does not embed a timestamp.
    TimestampUnavailable,
}

impl View for Uuid {
    type V = u128;

    closed spec fn view(&self) -> u128 {
        self.value
    }
}

/// Octet `i` (0 to 15) of `v` in network order: octet 0 holds the most
/// significant eight bits.
pub open spec fn octet(v: u128, i: int) -> u8 {
    (v >> ((15 - i) * 8) as u32) as u8
}

/// The sixteen octets of `v`, most significant first.
pub open spec fn be_bytes(v: u128) -> Seq<u8> {
    Seq::new(16, |i: int| octet(v, i))
}

/// The value whose network-order octets are `b[0]` to `b[15]`.
pub open spec fn be_value(b: Seq<u8>) -> u128 {
    (b[0] as u128) << 120u32 | (b[1] as u128) << 112u32 | (b[2] as u128) << 104u32
        | (b[3] as u128) << 96u32 | (b[4] as u128) << 88u32 | (b[5] as u128) << 80u32
        | (b[6] as u128) << 72u32 | (b[7] as u128) << 64u32 | (b[8] as u128) << 56u32
        | (b[9] as u128) << 48u32 | (b[10] as u128) << 40u32 | (b[11] as u128) << 32u32
        | (b[12] as u128) << 24u32 | (b[13] as u128) << 16u32 | (b[14] as u128) << 8u32
        | (b[15] as u128)
}

/// Where octet `i` of the little-endian layout comes from in the network-order
/// octets: the first three groups are reversed, the last eight stay in place.
pub open spec fn le_source(i: int) -> int {
    if i < 4 {
        3 - i
    } else if i < 6 {
        9 - i
    } else if i < 8 {
        13 - i
    } else {
        i
    }
}

/// Swaps octets 0 and 3, 1 and 2, 4 and 5, 6 and 7; octets 8 to 15 stay.
pub open spec fn swap_le(b: Seq<u8>) -> Seq<u8> {
    Seq::new(16, |i: int| b[le_source(i)])
}

/// The six fields: time_low, time_mid, time_hi_and_version,
/// clock_seq_hi_and_reserved, clock_seq_low and node.
pub type Fields = (u32, u16, u16, u8, u8, u64);

pub open spec fn time_low_of(v: u128) -> u32 {
    (v >> 96u32) as u32
}

pub open spec fn time_mid_of(v: u128) -> u16 {
    (v >> 80u32) as u16
}

pub open spec fn time_hi_version_of(v: u128) -> u16 {
    (v >> 64u32) as u16
}

pub open spec fn clock_seq_hi_variant_of(v: u128) -> u8 {
    (v >> 56u32) as u8
}

pub open spec fn clock_seq_low_of(v: u128) -> u8 {
    (v >> 48u32) as u8
}

/// The low 48 bits.
pub open spec fn node_of(v: u128) -> u64 {
    (v & 0xffff_ffff_ffffu128) as u64
}

/// The 14-bit clock sequence: octet 8 without its two variant bits, then octet 9.
pub open spec fn clock_seq_of(v: u128) -> u16 {
    ((clock_seq_hi_variant_of(v) & 0x3f) as u16) << 8u16 | clock_seq_low_of(v) as u16
}

/// The 60-bit timestamp of the version 1 layout.
pub open spec fn time_of(v: u128) -> u64 {
    ((time_hi_version_of(v) & 0x0fff) as u64) << 48u64 | (time_mid_of(v) as u64) << 32u64
        | time_low_of(v) as u64
}

pub open spec fn fields_of(v: u128) -> Fields {
    (
        time_low_of(v),
        time_mid_of(v),
        time_hi_version_of(v),
        clock_seq_hi_variant_of(v),
        clock_seq_low_of(v),
        node_of(v),
    )
}

/// `time_low << 96 | time_mid << 80 | time_hi_and_version << 64 | clock_seq << 48 | node`.
pub open spec fn pack_fields(f: Fields) -> u128 {
    (f.0 as u128) << 96u32 | (f.1 as u128) << 80u32 | (f.2 as u128) << 64u32 | (((f.3 as u128)
        << 8u32 | f.4 as u128) << 48u32) | f.5 as u128
}

/// The version nibble: the high four bits of octet 6.
pub open spec fn version_of(v: u128) -> u8 {
    ((v >> 76u32) & 0xf) as u8
}

/// The four layouts that octet 8 can announce.
#[derive(Clone, Copy, Debug, PartialEq, Eq, Structural)]
pub enum Variant {
    /// Octet 8 is `0xxxxxxx`.
    Ncs,
    /// Octet 8 is `10xxxxxx`.
    Rfc4122,
    /// Octet 8 is `110xxxxx`.
    Microsoft,
    /// Octet 8 is `111xxxxx`.
    Future,
}

pub open spec fn variant_of(v: u128) -> Variant {
    let b = clock_seq_hi_variant_of(v);
    if b & 0x80 == 0 {
        Variant::Ncs
    } else if b & 0xc0 == 0x80 {
        Variant::Rfc4122
    } else if b & 0xe0 == 0xc0 {
        Variant::Microsoft
    } else {
        Variant::Future
    }
}

/// Every bit but the version nibble and the two variant bits.
pub const KEEP_MASK: u128 = 0xffff_ffff_ffff_0fff_3fff_ffff_ffff_ffff;

/// The variant bits `10` in place.
pub const RFC_4122_BITS: u128 = 0x8000_0000_0000_0000;

/// `v` with version nibble `k` and the variant bits `10`; every other bit kept.
pub open spec fn versioned(v: u128, k: u8) -> u128 {
    (v & KEEP_MASK) | ((k as u128) << 76u32) | RFC_4122_BITS
}

/// The well-known namespaces of the name-based versions.
pub const NAMESPACE_DNS: u128 = 0x6ba7b810_9dad_11d1_80b4_00c04fd430c8;

pub const NAMESPACE_URL: u128 = 0x6ba7b811_9dad_11d1_80b4_00c04fd430c8;

pub const NAMESPACE_OID: u128 = 0x6ba7b812_9dad_11d1_80b4_00c04fd430c8;

pub const NAMESPACE_X500: u128 = 0x6ba7b814_9dad_11d1_80b4_00c04fd430c8;

pub const RESERVED_NCS: &'static str = "reserved for NCS compatibility";

pub const RFC_4122: &'static str = "specified in RFC 4122";

pub const RESERVED_MICROSOFT: &'static str = "reserved for Microsoft compatibility";

pub const RESERVED_FUTURE: &'static str = "reserved for future definition";

impl Variant {
    /// The fixed descriptive text of the variant.
    pub fn label(&self) -> (r: &'static str)
        ensures
            *self == Variant::Ncs ==> r@ == RESERVED_NCS@,
            *self == Variant::Rfc4122 ==> r@ == RFC_4122@,
            *self == Variant::Microsoft ==> r@ == RESERVED_MICROSOFT@,
            *self == Variant::Future ==> r@ == RESERVED_FUTURE@,
    {
        match self {
            Variant::Ncs => RESERVED_NCS,
            Variant::Rfc4122 => RFC_4122,
            Variant::Microsoft => RESERVED_MICROSOFT,
            Variant::Future => RESERVED_FUTURE,
        }
    }
}

impl Uuid {
    /// The namespace of fully qualified domain names.
    pub fn namespace_dns() -> (r: Uuid)
        ensures
            r@ == NAMESPACE_DNS,
    {
        Uuid { value: NAMESPACE_DNS }
    }

    /// The namespace of URLs.
    pub fn namespace_url() -> (r: Uuid)
        ensures
            r@ == NAMESPACE_URL,
    {
        Uuid { value: NAMESPACE_URL }
    }

    /// The namespace of ISO object identifiers.
    pub fn namespace_oid() -> (r: Uuid)
        ensures
            r@ == NAMESPACE_OID,
    {
        Uuid { value: NAMESPACE_OID }
    }

    /// The namespace of X.500 distinguished names.
    pub fn namespace_x500() -> (r: Uuid)
        ensures
            r@ == NAMESPACE_X500,
    {
        Uuid { value: NAMESPACE_X500 }
    }

    /// The value `int`, taken as it is.
    pub fn from_int(n: u128) -> (r: Uuid)
        ensures
            r@ == n,
    {
        Uuid { value: n }
    }

    /// The 128-bit value.
    pub fn as_int(&self) -> (r: u128)
        ensures
            r == self@,
    {
        self.value
    }

    /// The sixteen octets in network order.
    pub fn bytes(&self) -> (r: Vec<u8>)
        ensures
            r@ == be_bytes(self@),
    {
        let mut r: Vec<u8> = Vec::new();
        let mut i: u32 = 0;
        while i < 16
            invariant
                i <= 16,
                r@ == be_bytes(self@).subrange(0, i as int),
            decreases 16 - i,
        {
            let shift: u32 = (15 - i) * 8;
            r.push((self.value >> shift) as u8);
            i = i + 1;
            assert(r@ =~= be_bytes(self@).subrange(0, i as int));
        }
        assert(r@ =~= be_bytes(self@));
        r
    }

    /// Reads sixteen octets in network order; any other length is refused.
    pub fn from_bytes(bytes: &[u8]) -> (r: Result<Uuid, UuidError>)
        ensures
            bytes@.len() == 16 ==> r is Ok && r->Ok_0@ == be_value(bytes@),
            bytes@.len() != 16 ==> r == Err::<Uuid, UuidError>(UuidError::Length),
    {
        if bytes.len() != 16 {
            return Err(UuidError::Length);
        }
        Ok(Uuid { value: pack_octets(bytes) })
    }

    /// The octets with the first three groups in little-endian order.
    pub fn bytes_le(&self) -> (r: Vec<u8>)
        ensures
            r@ == swap_le(be_bytes(self@)),
    {
        let b = self.bytes();
        let mut r: Vec<u8> = Vec::new();
        let mut i: usize = 0;
        while i < 16
            invariant
                i <= 16,
                b@ == be_bytes(self@),
                r@ == swap_le(b@).subrange(0, i as int),
            decreases 16 - i,
        {
            let j: usize = if i < 4 {
                3 - i
            } else if i < 6 {
                9 - i
            } else if i < 8 {
                13 - i
            } else {
                i
            };
            r.push(b[j]);
            i = i + 1;
            assert(r@ =~= swap_le(b@).subrange(0, i as int));
        }
        assert(r@ =~= swap_le(b@));
        r
    }

    /// Reads sixteen octets whose first three groups are little-endian; any
    /// other length is refused.
    pub fn from_bytes_le(bytes: &[u8]) -> (r: Result<Uuid, UuidError>)
        ensures
            bytes@.len() == 16 ==> r is Ok && r->Ok_0@ == be_value(swap_le(bytes@)),
            bytes@.len() != 16 ==> r == Err::<Uuid, UuidError>(UuidError::Length),
    {
        if bytes.len() != 16 {
            return Err(UuidError::Length);
        }
        let b = bytes;
        let value = (b[3] as u128) << 120u32 | (b[2] as u128) << 112u32 | (b[1] as u128) << 104u32
            | (b[0] as u128) << 96u32 | (b[5] as u128) << 88u32 | (b[4] as u128) << 80u32
            | (b[7] as u128) << 72u32 | (b[6] as u128) << 64u32 | (b[8] as u128) << 56u32
            | (b[9] as u128) << 48u32 | (b[10] as u128) << 40u32 | (b[11] as u128) << 32u32
            | (b[12] as u128) << 24u32 | (b[13] as u128) << 16u32 | (b[14] as u128) << 8u32
            | (b[15] as u128);
        assert(swap_le(bytes@)[0] == bytes@[3]);
        assert(swap_le(bytes@)[1] == bytes@[2]);
        assert(swap_le(bytes@)[2] == bytes@[1]);
        assert(swap_le(bytes@)[3] == bytes@[0]);
        assert(swap_le(bytes@)[4] == bytes@[5]);
        assert(swap_le(bytes@)[5] == bytes@[4]);
        assert(swap_le(bytes@)[6] == bytes@[7]);
        assert(swap_le(bytes@)[7] == bytes@[6]);
        Ok(Uuid { value })
    }

    /// Packs the six fields into the network-order layout.
    pub fn from_fields(fields: Fields) -> (r: Uuid)
        ensures
            r@ == pack_fields(fields),
    {
        let clock_seq = (fields.3 as u128) << 8u32 | fields.4 as u128;
        Uuid {
            value: (fields.0 as u128) << 96u32 | (fields.1 as u128) << 80u32 | (fields.2 as u128)
                << 64u32 | clock_seq << 48u32 | fields.5 as u128,
        }
    }

    pub fn time_low(&self) -> (r: u32)
        ensures
            r == time_low_of(self@),
    {
        (self.value >> 96u32) as u32
    }

    pub fn time_mid(&self) -> (r: u16)
        ensures
            r == time_mid_of(self@),
    {
        (self.value >> 80u32) as u16
    }

    pub fn time_hi_version(&self) -> (r: u16)
        ensures
            r == time_hi_version_of(self@),
    {
        (self.value >> 64u32) as u16
    }

    pub fn clock_seq_hi_variant(&self) -> (r: u8)
        ensures
            r == clock_seq_hi_variant_of(self@),
    {
        (self.value >> 56u32) as u8
    }

    pub fn clock_seq_low(&self) -> (r: u8)
        ensures
            r == clock_seq_low_of(self@),
    {
        (self.value >> 48u32) as u8
    }

    pub fn node(&self) -> (r: u64)
        ensures
            r == node_of(self@),
    {
        (self.value & 0xffff_ffff_ffffu128) as u64
    }

    pub fn clock_seq(&self) -> (r: u16)
        ensures
            r == clock_seq_of(self@),
    {
        ((self.clock_seq_hi_variant() & 0x3f) as u16) << 8u16 | self.clock_seq_low() as u16
    }

    pub fn time(&self) -> (r: u64)
        ensures
            r == time_of(self@),
    {
        ((self.time_hi_version() & 0x0fff) as u64) << 48u64 | (self.time_mid() as u64) << 32u64
            | self.time_low() as u64
    }

    pub fn fields(&self) -> (r: Fields)
        ensures
            r == fields_of(self@),
    {
        (
            self.time_low(),
            self.time_mid(),
            self.time_hi_version(),
            self.clock_seq_hi_variant(),
            self.clock_seq_low(),
            self.node(),
        )
    }

    /// The version nibble, 0 to 15.
    pub fn version(&self) -> (r: u8)
        ensures
            r == version_of(self@),
    {
        ((self.value >> 76u32) & 0xf) as u8
    }

    pub fn variant(&self) -> (r: Variant)
        ensures
            r == variant_of(self@),
    {
        let b = self.clock_seq_hi_variant();
        if b & 0x80 == 0 {
            Variant::Ncs
        } else if b & 0xc0 == 0x80 {
            Variant::Rfc4122
        } else if b & 0xe0 == 0xc0 {
            Variant::Microsoft
        } else {
            Variant::Future
        }
    }

    /// A new value with version nibble `version` and the RFC 4122 variant;
    /// only versions 1 to 8 are accepted.
    pub fn with_version(&self, version: u8) -> (r: Result<Uuid, UuidError>)
        ensures
            1 <= version <= 8 ==> r is Ok && r->Ok_0@ == versioned(self@, version),
            !(1 <= version <= 8) ==> r == Err::<Uuid, UuidError>(UuidError::Argument),
    {
        if version < 1 || version > 8 {
            return Err(UuidError::Argument);
        }
        Ok(Uuid { value: set_version_bits(self.value, version) })
    }
}

/// Writes version nibble `k` and the variant bits `10` into `v`.
pub(crate) fn set_version_bits(v: u128, k: u8) -> (r: u128)
    ensures
        r == versioned(v, k),
{
    (v & KEEP_MASK) | ((k as u128) << 76u32) | RFC_4122_BITS
}

fn pack_octets(b: &[u8]) -> (r: u128)
    requires
        b@.len() == 16,
    ensures
        r == be_value(b@),
{
    (b[0] as u128) << 120u32 | (b[1] as u128) << 112u32 | (b[2] as u128) << 104u32
        | (b[3] as u128) << 96u32 | (b[4] as u128) << 88u32 | (b[5] as u128) << 80u32
        | (b[6] as u128) << 72u32 | (b[7] as u128) << 64u32 | (b[8] as u128) << 56u32
        | (b[9] as u128) << 48u32 | (b[10] as u128) << 40u32 | (b[11] as u128) << 32u32
        | (b[12] as u128) << 24u32 | (b[13] as u128) << 16u32 | (b[14] as u128) << 8u32
        | (b[15] as u128)
}

} // verus!
