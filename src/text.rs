//! The text forms of a UUID: parsing the four accepted grammars, and
//! writing the hyphenated and URN forms.
use vstd::prelude::*;

use crate::error::ParseUuidError;
use crate::imp::{
    const_hex_decode, const_range, const_range_from, decode_digit_layout, hyphen, hyphen_at,
    hyphenated_offset, is_hyphenated, is_simple, lemma_hyphenated_positions, position_byte,
    HYPHEN, UUID_SIMPLE_LENGTH, UUID_STR_LENGTH,
};
use crate::Uuid;

verus! {

/// Length of the URN form.
pub const UUID_URN_LENGTH: usize = 45;

/// Length of the braced form.
pub const UUID_BRACED_LENGTH: usize = 38;

/// Length of the URN prefix `urn:uuid:`.
pub const UUID_URN_PREFIX: usize = 9;

/// ASCII `{`.
pub const OPEN_BRACE: u8 = 0x7B;

/// ASCII `}`.
pub const CLOSE_BRACE: u8 = 0x7D;

/// The URN prefix `urn:uuid:`, in ASCII.
pub open spec fn urn_prefix() -> Seq<u8> {
    seq![0x75u8, 0x72, 0x6E, 0x3A, 0x75, 0x75, 0x69, 0x64, 0x3A]
}

/// The digit layout inside an accepted text: after the URN prefix, inside
/// the braces, or the whole text.
pub open spec fn uuid_digits(t: Seq<u8>) -> Seq<u8> {
    if t.len() == 45 {
        t.subrange(9, 45)
    } else if t.len() == 38 {
        t.subrange(1, 37)
    } else {
        t
    }
}

/// Whether `t` is one of the accepted forms, told apart by length: URN (45,
/// the lowercase prefix `urn:uuid:` then the hyphenated form), braced (38,
/// the hyphenated form between `{` and `}`), hyphenated (36) or simple
/// (32). Hex digits may be of either case.
pub open spec fn is_uuid_text(t: Seq<u8>) -> bool {
    if t.len() == 45 {
        t.subrange(0, 9) == urn_prefix() && is_hyphenated(t.subrange(9, 45))
    } else if t.len() == 38 {
        t[0] == OPEN_BRACE && t[37] == CLOSE_BRACE && is_hyphenated(t.subrange(1, 37))
    } else if t.len() == 36 {
        is_hyphenated(t)
    } else if t.len() == 32 {
        is_simple(t)
    } else {
        false
    }
}

/// The 16 bytes that an accepted text spells.
pub open spec fn text_bytes(t: Seq<u8>) -> Seq<u8> {
    decode_digit_layout(uuid_digits(t))
}

/// The ASCII codes of the characters of `s`.
pub open spec fn ascii_bytes(s: Seq<char>) -> Seq<u8> {
    Seq::new(s.len(), |i: int| s[i] as u8)
}

/// Whether the string `s` is a UUID in one of the accepted forms. It must be
/// ASCII.
pub open spec fn parses(s: Seq<char>) -> bool {
    vstd::utf8::is_ascii_chars(s) && is_uuid_text(ascii_bytes(s))
}

/// The 16 bytes that an accepted string spells.
pub open spec fn parsed_bytes(s: Seq<char>) -> Seq<u8> {
    text_bytes(ascii_bytes(s))
}

/// The ASCII hex digit for a value below 16, lowercase or uppercase.
pub open spec fn hex_char(v: int, upper: bool) -> u8 {
    if v < 10 {
        (0x30 + v) as u8
    } else if upper {
        (0x41 + v - 10) as u8
    } else {
        (0x61 + v - 10) as u8
    }
}

/// The hyphenated form of the bytes `b`: two hex digits per byte, high digit
/// first, with hyphens after the groups of 8, 4, 4 and 4 digits.
pub open spec fn encode_hyphenated(b: Seq<u8>, upper: bool) -> Seq<u8> {
    Seq::new(
        36,
        |i: int|
            if hyphen_at(i) {
                hyphen()
            } else if i == hyphenated_offset(position_byte(i)) {
                hex_char(b[position_byte(i)] as int / 16, upper)
            } else {
                hex_char(b[position_byte(i)] as int % 16, upper)
            },
    )
}

/// The URN form of the bytes `b`: the prefix `urn:uuid:`, then the
/// hyphenated form.
pub open spec fn encode_urn(b: Seq<u8>, upper: bool) -> Seq<u8> {
    urn_prefix() + encode_hyphenated(b, upper)
}

/// The simple form of the bytes `b`: 32 hex digits, high digit first.
pub open spec fn encode_simple(b: Seq<u8>, upper: bool) -> Seq<u8> {
    Seq::new(
        32,
        |i: int|
            if i % 2 == 0 {
                hex_char(b[i / 2] as int / 16, upper)
            } else {
                hex_char(b[i / 2] as int % 16, upper)
            },
    )
}

/// The braced form of the bytes `b`: the hyphenated form between `{` and
/// `}`.
pub open spec fn encode_braced(b: Seq<u8>, upper: bool) -> Seq<u8> {
    seq![OPEN_BRACE] + encode_hyphenated(b, upper) + seq![CLOSE_BRACE]
}

/// The hex digit for `v`.
fn hex_digit(v: u8, upper: bool) -> (r: u8)
    requires
        v < 16,
    ensures
        r == hex_char(v as int, upper),
{
    if v < 10 {
        0x30 + v
    } else if upper {
        0x41 + v - 10
    } else {
        0x61 + v - 10
    }
}

/// The hyphenated form of `bytes`.
fn encode_hyphenated_exec(bytes: &[u8; 16], upper: bool) -> (r: [u8; 36])
    ensures
        r@ == encode_hyphenated(bytes@, upper),
{
    proof {
        lemma_hyphenated_positions();
    }
    let ghost e = encode_hyphenated(bytes@, upper);
    let mut out = [HYPHEN; 36];
    let mut k: usize = 0;
    while k < 16
        invariant
            k <= 16,
            e == encode_hyphenated(bytes@, upper),
            forall|i: int|
                0 <= i < 36 ==> (hyphen_at(i) || position_byte(i) < k) ==> #[trigger] out[i]
                    == e[i],
        decreases 16 - k,
    {
        let p: usize = if k < 4 {
            2 * k
        } else if k < 6 {
            2 * k + 1
        } else if k < 8 {
            2 * k + 2
        } else if k < 10 {
            2 * k + 3
        } else {
            2 * k + 4
        };
        assert(p == hyphenated_offset(k as int));
        let b = bytes[k];
        out[p] = hex_digit(b / 16, upper);
        out[p + 1] = hex_digit(b % 16, upper);
        k = k + 1;
    }
    assert(out@ =~= e);
    out
}

/// Whether `t` starts with the URN prefix.
fn has_urn_prefix(t: &[u8]) -> (r: bool)
    requires
        t@.len() >= 9,
    ensures
        r == (t@.subrange(0, 9) == urn_prefix()),
{
    let r = t[0] == 0x75 && t[1] == 0x72 && t[2] == 0x6E && t[3] == 0x3A && t[4] == 0x75 && t[5]
        == 0x75 && t[6] == 0x69 && t[7] == 0x64 && t[8] == 0x3A;
    if r {
        assert(t@.subrange(0, 9) =~= urn_prefix());
    } else {
        let ghost p = t@.subrange(0, 9);
        assert(p[0] == t@[0] && p[1] == t@[1] && p[2] == t@[2] && p[3] == t@[3] && p[4] == t@[4]
            && p[5] == t@[5] && p[6] == t@[6] && p[7] == t@[7] && p[8] == t@[8]);
        let ghost q = urn_prefix();
        assert(q[0] == 0x75 && q[1] == 0x72 && q[2] == 0x6E && q[3] == 0x3A && q[4] == 0x75 && q[5]
            == 0x75 && q[6] == 0x69 && q[7] == 0x64 && q[8] == 0x3A);
    }
    r
}

impl Uuid {
    /// Parses a UUID from text in any of the four accepted forms:
    /// hyphenated, simple, braced or URN, with hex digits of either case.
    /// Anything else, non-ASCII text included, is an error; nothing is
    /// decoded partly.
    pub fn parse(s: &str) -> (r: Result<Uuid, ParseUuidError>)
        ensures
            r is Ok <==> parses(s@),
            r is Ok ==> r->Ok_0@ == parsed_bytes(s@),
    {
        broadcast use vstd::string::is_ascii_spec_bytes;

        if !s.is_ascii() {
            return Err(ParseUuidError::new());
        }
        let b = s.as_bytes();
        assert(b@ =~= ascii_bytes(s@));
        let ghost t = b@;
        let len = b.len();
        let digits = if len == UUID_URN_LENGTH {
            if !has_urn_prefix(b) {
                return Err(ParseUuidError::new());
            }
            const_range_from(b, UUID_URN_PREFIX)
        } else if len == UUID_BRACED_LENGTH {
            if b[0] != OPEN_BRACE || b[37] != CLOSE_BRACE {
                return Err(ParseUuidError::new());
            }
            const_range(b, 1..37)
        } else if len == UUID_STR_LENGTH || len == UUID_SIMPLE_LENGTH {
            b
        } else {
            return Err(ParseUuidError::new());
        };
        assert(digits@ == uuid_digits(t));
        match const_hex_decode(digits) {
            Ok(bytes) => Ok(Uuid::from_bytes(bytes)),
            Err(e) => Err(e),
        }
    }

    /// Writes the hyphenated form, lowercase, into `buf`.
    pub fn to_str(&self, buf: &mut [u8; 36])
        ensures
            final(buf)@ == encode_hyphenated(self@, false),
    {
        *buf = encode_hyphenated_exec(self.as_bytes(), false);
    }

    /// Writes the hyphenated form, uppercase, into `buf`.
    pub fn to_str_upper(&self, buf: &mut [u8; 36])
        ensures
            final(buf)@ == encode_hyphenated(self@, true),
    {
        *buf = encode_hyphenated_exec(self.as_bytes(), true);
    }

    /// Writes the URN form, lowercase, into `buf`.
    pub fn to_urn(&self, buf: &mut [u8; 45])
        ensures
            final(buf)@ == encode_urn(self@, false),
    {
        write_urn(self.as_bytes(), false, buf);
    }

    /// Writes the URN form with uppercase digits into `buf`; the prefix
    /// stays lowercase.
    pub fn to_urn_upper(&self, buf: &mut [u8; 45])
        ensures
            final(buf)@ == encode_urn(self@, true),
    {
        write_urn(self.as_bytes(), true, buf);
    }
}

/// Writes the URN form of `bytes` into `buf`.
fn write_urn(bytes: &[u8; 16], upper: bool, buf: &mut [u8; 45])
    ensures
        final(buf)@ == encode_urn(bytes@, upper),
{
    let h = encode_hyphenated_exec(bytes, upper);
    let mut out = [0x75u8, 0x72, 0x6E, 0x3A, 0x75, 0x75, 0x69, 0x64, 0x3A, 0, 0, 0, 0, 0, 0, 0, 0, 0,
    0, 0, 0, 0, 0, 0, 0, 0, 0, 0, 0, 0, 0, 0, 0, 0, 0, 0, 0, 0, 0, 0, 0, 0, 0, 0, 0];
    let mut i: usize = 0;
    while i < 36
        invariant
            i <= 36,
            forall|j: int| 0 <= j < 9 ==> #[trigger] out[j] == urn_prefix()[j],
            forall|j: int| 0 <= j < i ==> #[trigger] out[9 + j] == h[j],
        decreases 36 - i,
    {
        out[9 + i] = h[i];
        i = i + 1;
    }
    assert forall|j: int| 0 <= j < 45 implies out@[j] == #[trigger] encode_urn(bytes@, upper)[j] by {
        if j >= 9 {
            assert(out[9 + (j - 9)] == h[j - 9]);
        }
    }
    assert(out@ =~= encode_urn(bytes@, upper));
    *buf = out;
}

impl core::str::FromStr for Uuid {
    type Err = ParseUuidError;

    /// Same as [`Uuid::parse`].
    fn from_str(s: &str) -> Result<Uuid, ParseUuidError> {
        Uuid::parse(s)
    }
}

} // verus!
