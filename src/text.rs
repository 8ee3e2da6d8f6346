//! Textual forms: rendering and parsing, and the unified constructor.
use vstd::prelude::*;

use crate::value::{be_value, octet, pack_fields, swap_le, versioned, Fields, Uuid, UuidError};

verus! {

#[verifier::external_type_specification]
#[verifier::external_body]
pub struct ExParseError(uuid::Error);

/// The lowercase hexadecimal digit of `d` (0 to 15).
pub open spec fn hex_char(d: u8) -> char {
    if d == 0 {
        '0'
    } else if d == 1 {
        '1'
    } else if d == 2 {
        '2'
    } else if d == 3 {
        '3'
    } else if d == 4 {
        '4'
    } else if d == 5 {
        '5'
    } else if d == 6 {
        '6'
    } else if d == 7 {
        '7'
    } else if d == 8 {
        '8'
    } else if d == 9 {
        '9'
    } else if d == 10 {
        'a'
    } else if d == 11 {
        'b'
    } else if d == 12 {
        'c'
    } else if d == 13 {
        'd'
    } else if d == 14 {
        'e'
    } else {
        'f'
    }
}

/// The value of a hexadecimal digit in either case, or -1 for any other character.
pub open spec fn hex_value(c: char) -> int {
    if c == '0' {
        0
    } else if c == '1' {
        1
    } else if c == '2' {
        2
    } else if c == '3' {
        3
    } else if c == '4' {
        4
    } else if c == '5' {
        5
    } else if c == '6' {
        6
    } else if c == '7' {
        7
    } else if c == '8' {
        8
    } else if c == '9' {
        9
    } else if c == 'a' || c == 'A' {
        10
    } else if c == 'b' || c == 'B' {
        11
    } else if c == 'c' || c == 'C' {
        12
    } else if c == 'd' || c == 'D' {
        13
    } else if c == 'e' || c == 'E' {
        14
    } else if c == 'f' || c == 'F' {
        15
    } else {
        -1
    }
}

/// Digit `i` (0 to 31) of the value: the high then the low half of each octet.
pub open spec fn nibble(v: u128, i: int) -> u8 {
    if i % 2 == 0 {
        octet(v, i / 2) >> 4u8
    } else {
        octet(v, i / 2) & 0xf
    }
}

/// The 32 lowercase hexadecimal digits, most significant first.
pub open spec fn simple_text(v: u128) -> Seq<char> {
    Seq::new(32, |i: int| hex_char(nibble(v, i)))
}

/// The digits in groups of 8, 4, 4, 4 and 12, joined by hyphens.
pub open spec fn hyphenated_text(v: u128) -> Seq<char> {
    let s = simple_text(v);
    s.subrange(0, 8) + seq!['-'] + s.subrange(8, 12) + seq!['-'] + s.subrange(12, 16) + seq!['-']
        + s.subrange(16, 20) + seq!['-'] + s.subrange(20, 32)
}

pub open spec fn urn_prefix() -> Seq<char> {
    seq!['u', 'r', 'n', ':', 'u', 'u', 'i', 'd', ':']
}

/// `urn:uuid:` followed by the hyphenated form.
pub open spec fn urn_text(v: u128) -> Seq<char> {
    urn_prefix() + hyphenated_text(v)
}

/// The 32 digits of a hyphenated form of 36 characters, if its hyphens stand
/// at positions 8, 13, 18 and 23.
pub open spec fn grouped_digits(s: Seq<char>) -> Option<Seq<char>> {
    if s.len() == 36 && s[8] == '-' && s[13] == '-' && s[18] == '-' && s[23] == '-' {
        Some(
            s.subrange(0, 8) + s.subrange(9, 13) + s.subrange(14, 18) + s.subrange(19, 23)
                + s.subrange(24, 36),
        )
    } else {
        None
    }
}

/// `c` is the lowercase letter or colon `t`, ignoring ASCII case.
pub open spec fn same_ignoring_case(c: char, t: char) -> bool {
    c == t || (t == 'u' && c == 'U') || (t == 'r' && c == 'R') || (t == 'n' && c == 'N') || (t
        == 'i' && c == 'I') || (t == 'd' && c == 'D')
}

/// The first nine characters are `urn:uuid:` in any ASCII case.
pub open spec fn has_urn_prefix(s: Seq<char>) -> bool {
    &&& s.len() >= 9
    &&& forall|i: int| 0 <= i < 9 ==> same_ignoring_case(#[trigger] s[i], urn_prefix()[i])
}

/// The 32 digit positions of an accepted shape: simple (32 characters),
/// hyphenated (36), braced (38) or URN (45).
pub open spec fn text_digits(s: Seq<char>) -> Option<Seq<char>> {
    if s.len() == 32 {
        Some(s)
    } else if s.len() == 36 {
        grouped_digits(s)
    } else if s.len() == 38 && s[0] == '{' && s[37] == '}' {
        grouped_digits(s.subrange(1, 37))
    } else if s.len() == 45 && has_urn_prefix(s) {
        grouped_digits(s.subrange(9, 45))
    } else {
        None
    }
}

pub open spec fn all_hex(d: Seq<char>) -> bool {
    forall|i: int| 0 <= i < d.len() ==> hex_value(#[trigger] d[i]) >= 0
}

/// Each pair of digits read as one octet.
pub open spec fn decode_digits(d: Seq<char>) -> Seq<u8> {
    Seq::new(16, |j: int| (hex_value(d[2 * j]) * 16 + hex_value(d[2 * j + 1])) as u8)
}

/// The value that a text denotes, or `None` where it has no accepted form.
pub open spec fn parsed_text(s: Seq<char>) -> Option<u128> {
    match text_digits(s) {
        Some(d) => if all_hex(d) {
            Some(be_value(decode_digits(d)))
        } else {
            None
        },
        None => None,
    }
}

/// Relies on `uuid::Uuid::parse_str`, which accepts the simple, hyphenated,
/// braced and URN forms with digits in either case, and `Uuid::as_u128`, which
/// reads the octets in network order.
#[verifier::external_body]
fn parse_uuid_text(s: &str) -> (r: Result<u128, uuid::Error>)
    ensures
        r is Ok <==> parsed_text(s@) is Some,
        r is Ok ==> parsed_text(s@) == Some(r->Ok_0),
{
    match uuid::Uuid::parse_str(s) {
        Ok(u) => Ok(u.as_u128()),
        Err(e) => Err(e),
    }
}

/// Relies on `uuid::Uuid::simple` and its `Display`: the 32 lowercase digits.
#[verifier::external_body]
fn format_simple(v: u128) -> (r: String)
    ensures
        r@ == simple_text(v),
{
    uuid::Uuid::from_u128(v).simple().to_string()
}

/// Relies on `uuid::Uuid::hyphenated` and its `Display`: the lowercase
/// 8-4-4-4-12 form.
#[verifier::external_body]
fn format_hyphenated(v: u128) -> (r: String)
    ensures
        r@ == hyphenated_text(v),
{
    uuid::Uuid::from_u128(v).hyphenated().to_string()
}

/// Relies on `uuid::Uuid::urn` and its `Display`: `urn:uuid:` and the
/// lowercase hyphenated form.
#[verifier::external_body]
fn format_urn(v: u128) -> (r: String)
    ensures
        r@ == urn_text(v),
{
    uuid::Uuid::from_u128(v).urn().to_string()
}

/// What the unified constructor yields before any version is applied: exactly
/// one source must be given.
pub open spec fn single_source_value(
    hex: Option<&str>,
    bytes: Option<&[u8]>,
    bytes_le: Option<&[u8]>,
    fields: Option<Fields>,
    int_value: Option<u128>,
) -> Result<u128, UuidError> {
    match (hex, bytes, bytes_le, fields, int_value) {
        (Some(h), None, None, None, None) => match parsed_text(h@) {
            Some(v) => Ok(v),
            None => Err(UuidError::Format),
        },
        (None, Some(b), None, None, None) => if b@.len() == 16 {
            Ok(be_value(b@))
        } else {
            Err(UuidError::Length)
        },
        (None, None, Some(b), None, None) => if b@.len() == 16 {
            Ok(be_value(swap_le(b@)))
        } else {
            Err(UuidError::Length)
        },
        (None, None, None, Some(f), None) => Ok(pack_fields(f)),
        (None, None, None, None, Some(n)) => Ok(n),
        _ => Err(UuidError::Argument),
    }
}

/// A constructed value with the requested version applied, if any.
pub open spec fn with_optional_version(
    base: Result<u128, UuidError>,
    version: Option<u8>,
) -> Result<u128, UuidError> {
    match base {
        Err(e) => Err(e),
        Ok(v) => match version {
            None => Ok(v),
            Some(k) => if 1 <= k <= 8 {
                Ok(versioned(v, k))
            } else {
                Err(UuidError::Argument)
            },
        },
    }
}

impl Uuid {
    /// Builds a value from exactly one of the five sources, then applies
    /// `version` if one is given.
    pub fn new(
        hex: Option<&str>,
        bytes: Option<&[u8]>,
        bytes_le: Option<&[u8]>,
        fields: Option<Fields>,
        int_value: Option<u128>,
        version: Option<u8>,
    ) -> (r: Result<Uuid, UuidError>)
        ensures
            ({
                let want = with_optional_version(
                    single_source_value(hex, bytes, bytes_le, fields, int_value),
                    version,
                );
                &&& r is Ok <==> want is Ok
                &&& r is Ok ==> want == Ok::<u128, UuidError>(r->Ok_0@)
                &&& r is Err ==> want == Err::<u128, UuidError>(r->Err_0)
            }),
    {
        let base = match (hex, bytes, bytes_le, fields, int_value) {
            (Some(h), None, None, None, None) => Uuid::from_hex(h),
            (None, Some(b), None, None, None) => Uuid::from_bytes(b),
            (None, None, Some(b), None, None) => Uuid::from_bytes_le(b),
            (None, None, None, Some(f), None) => Ok(Uuid::from_fields(f)),
            (None, None, None, None, Some(n)) => Ok(Uuid::from_int(n)),
            _ => Err(UuidError::Argument),
        };
        match base {
            Err(e) => Err(e),
            Ok(u) => match version {
                None => Ok(u),
                Some(k) => u.with_version(k),
            },
        }
    }
    /// Parses the simple, hyphenated, braced or URN form.
    pub fn from_hex(hex: &str) -> (r: Result<Uuid, UuidError>)
        ensures
            parsed_text(hex@) is Some ==> r is Ok && r->Ok_0@ == parsed_text(hex@)->Some_0,
            parsed_text(hex@) is None ==> r == Err::<Uuid, UuidError>(UuidError::Format),
    {
        match parse_uuid_text(hex) {
            Ok(v) => Ok(Uuid::from_int(v)),
            Err(_) => Err(UuidError::Format),
        }
    }

    /// The 32 lowercase hexadecimal digits.
    pub fn hex(&self) -> (r: String)
        ensures
            r@ == simple_text(self@),
    {
        format_simple(self.as_int())
    }

    /// The canonical lowercase hyphenated form.
    pub fn to_string(&self) -> (r: String)
        ensures
            r@ == hyphenated_text(self@),
    {
        format_hyphenated(self.as_int())
    }

    /// `urn:uuid:` and the hyphenated form.
    pub fn urn(&self) -> (r: String)
        ensures
            r@ == urn_text(self@),
    {
        format_urn(self.as_int())
    }
}

} // verus!
