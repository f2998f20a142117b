//! Laws that relate the operations of the library to each other: text
//! round trips, case insensitivity, the mixed-endian round trip, rejection
//! of malformed text and determinism of the name-based versions.
use vstd::prelude::*;

use crate::generate::{md5_of, name_input, sha1_of};
use crate::imp::{
    decode_digit_layout, decode_hyphenated, decode_simple, digit_pair, hex_value, hyphen,
    hyphen_at, hyphenated_offset, is_digit_layout, is_hex_digit, is_hyphenated, is_simple,
    lemma_hyphenated_positions, position_byte,
};
use crate::text::{
    ascii_bytes, encode_braced, encode_hyphenated, encode_simple, encode_urn, hex_char,
    is_uuid_text, parsed_bytes, parses, text_bytes, urn_prefix, uuid_digits, CLOSE_BRACE,
    OPEN_BRACE,
};
use crate::{filled, swap_fields, tagged, Uuid};

verus! {

/// A hex digit written for a value reads back as that value.
proof fn lemma_hex_char(v: int, upper: bool)
    requires
        0 <= v < 16,
    ensures
        is_hex_digit(hex_char(v, upper)),
        hex_value(hex_char(v, upper)) == v,
{
}

/// The hyphenated form of any 16 bytes, in either case, is hyphenated text
/// that decodes to those bytes.
proof fn lemma_hyphenated_round_trip(b: Seq<u8>, upper: bool)
    requires
        b.len() == 16,
    ensures
        is_hyphenated(encode_hyphenated(b, upper)),
        decode_hyphenated(encode_hyphenated(b, upper)) == b,
{
    let t = encode_hyphenated(b, upper);
    lemma_hyphenated_positions();
    assert forall|i: int| 0 <= i < 36 implies if hyphen_at(i) {
        #[trigger] t[i] == hyphen()
    } else {
        is_hex_digit(t[i])
    } by {
        if !hyphen_at(i) {
            let k = position_byte(i);
            lemma_hex_char(b[k] as int / 16, upper);
            lemma_hex_char(b[k] as int % 16, upper);
        }
    }
    assert forall|k: int| 0 <= k < 16 implies #[trigger] decode_hyphenated(t)[k] == b[k] by {
        let p = hyphenated_offset(k);
        lemma_hex_char(b[k] as int / 16, upper);
        lemma_hex_char(b[k] as int % 16, upper);
        assert(t[p] == hex_char(b[k] as int / 16, upper));
        assert(t[p + 1] == hex_char(b[k] as int % 16, upper));
    }
    assert(decode_hyphenated(t) =~= b);
}

/// The simple form of any 16 bytes, in either case, is simple text that
/// decodes to those bytes.
proof fn lemma_simple_round_trip(b: Seq<u8>, upper: bool)
    requires
        b.len() == 16,
    ensures
        is_simple(encode_simple(b, upper)),
        decode_simple(encode_simple(b, upper)) == b,
{
    let t = encode_simple(b, upper);
    assert forall|i: int| 0 <= i < 32 implies is_hex_digit(#[trigger] t[i]) by {
        lemma_hex_char(b[i / 2] as int / 16, upper);
        lemma_hex_char(b[i / 2] as int % 16, upper);
    }
    assert forall|k: int| 0 <= k < 16 implies #[trigger] decode_simple(t)[k] == b[k] by {
        lemma_hex_char(b[k] as int / 16, upper);
        lemma_hex_char(b[k] as int % 16, upper);
        assert(t[2 * k] == hex_char(b[k] as int / 16, upper));
        assert(t[2 * k + 1] == hex_char(b[k] as int % 16, upper));
    }
    assert(decode_simple(t) =~= b);
}

/// Every one of the four text forms of the same 16 bytes, with lowercase or
/// uppercase digits, is accepted and spells those bytes: hyphenated,
/// simple, braced and URN.
pub proof fn lemma_forms_agree(b: Seq<u8>, upper: bool)
    requires
        b.len() == 16,
    ensures
        is_uuid_text(encode_hyphenated(b, upper)),
        text_bytes(encode_hyphenated(b, upper)) == b,
        is_uuid_text(encode_simple(b, upper)),
        text_bytes(encode_simple(b, upper)) == b,
        is_uuid_text(encode_braced(b, upper)),
        text_bytes(encode_braced(b, upper)) == b,
        is_uuid_text(encode_urn(b, upper)),
        text_bytes(encode_urn(b, upper)) == b,
{
    lemma_hyphenated_round_trip(b, upper);
    lemma_simple_round_trip(b, upper);
    let h = encode_hyphenated(b, upper);
    let br = encode_braced(b, upper);
    assert(br.subrange(1, 37) =~= h);
    let u = encode_urn(b, upper);
    assert(u.subrange(0, 9) =~= urn_prefix());
    assert(u.subrange(9, 45) =~= h);
}

/// Parsing the text that `to_str` writes gives back the bytes: for any 16
/// bytes, a string whose characters are the lowercase hyphenated form of
/// them parses, to exactly those bytes.
pub proof fn lemma_to_str_parse_round_trip(b: Seq<u8>, s: Seq<char>)
    requires
        b.len() == 16,
        vstd::utf8::is_ascii_chars(s),
        ascii_bytes(s) == encode_hyphenated(b, false),
    ensures
        parses(s),
        parsed_bytes(s) == b,
{
    lemma_forms_agree(b, false);
}

/// The nil UUID's hyphenated form is all zero digits:
/// `00000000-0000-0000-0000-000000000000`.
pub proof fn lemma_nil_text()
    ensures
        encode_hyphenated(filled(0), false) == Seq::new(
            36,
            |i: int|
                if hyphen_at(i) {
                    hyphen()
                } else {
                    0x30u8
                },
        ),
{
    lemma_hyphenated_positions();
    assert(encode_hyphenated(filled(0), false) =~= Seq::new(
        36,
        |i: int|
            if hyphen_at(i) {
                hyphen()
            } else {
                0x30u8
            },
    ));
}

/// The mixed-endian reordering undone by itself: converting to the
/// mixed-endian bytes and back gives the same UUID.
pub proof fn lemma_mixed_endian_round_trip(b: Seq<u8>)
    requires
        b.len() == 16,
    ensures
        swap_fields(swap_fields(b)) == b,
{
    assert(swap_fields(swap_fields(b)) =~= b);
}

/// Where one of the three reordered fields does not read the same both ways,
/// the mixed-endian bytes differ from the canonical ones.
pub proof fn lemma_mixed_endian_differs(b: Seq<u8>)
    requires
        b.len() == 16,
        !(b[0] == b[3] && b[1] == b[2] && b[4] == b[5] && b[6] == b[7]),
    ensures
        swap_fields(b) != b,
{
    let s = swap_fields(b);
    assert(s[0] == b[3] && s[1] == b[2] && s[2] == b[1] && s[3] == b[0]);
    assert(s[4] == b[5] && s[5] == b[4] && s[6] == b[7] && s[7] == b[6]);
}

/// The name-based versions are deterministic: the same namespace and name
/// give the same UUID, for MD5 and for SHA-1.
pub proof fn lemma_name_based_deterministic(
    namespace1: Uuid,
    namespace2: Uuid,
    name1: Seq<u8>,
    name2: Seq<u8>,
)
    requires
        namespace1 == namespace2,
        name1 == name2,
    ensures
        tagged(md5_of(name_input(namespace1@, name1)), 3) == tagged(
            md5_of(name_input(namespace2@, name2)),
            3,
        ),
        tagged(sha1_of(name_input(namespace1@, name1)).subrange(0, 16), 5) == tagged(
            sha1_of(name_input(namespace2@, name2)).subrange(0, 16),
            5,
        ),
{
}

/// `c` with an ASCII lowercase letter made uppercase (`upper`), or an ASCII
/// uppercase letter made lowercase; every other character unchanged.
pub open spec fn recase_char(c: char, upper: bool) -> char {
    if upper && 'a' <= c <= 'z' {
        ((c as u32) - 32) as char
    } else if !upper && 'A' <= c <= 'Z' {
        ((c as u32) + 32) as char
    } else {
        c
    }
}

/// The string `s` in ASCII uppercase (`upper`) or ASCII lowercase.
pub open spec fn recase(s: Seq<char>, upper: bool) -> Seq<char> {
    Seq::new(s.len(), |i: int| recase_char(s[i], upper))
}

/// The byte `c` under the same change of case.
spec fn recase_byte(c: u8, upper: bool) -> u8 {
    if upper && 0x61 <= c <= 0x7A {
        (c - 32) as u8
    } else if !upper && 0x41 <= c <= 0x5A {
        (c + 32) as u8
    } else {
        c
    }
}

spec fn recase_bytes(t: Seq<u8>, upper: bool) -> Seq<u8> {
    Seq::new(t.len(), |i: int| recase_byte(t[i], upper))
}

proof fn lemma_recase_ascii(s: Seq<char>, upper: bool)
    requires
        vstd::utf8::is_ascii_chars(s),
    ensures
        vstd::utf8::is_ascii_chars(recase(s, upper)),
        ascii_bytes(recase(s, upper)) == recase_bytes(ascii_bytes(s), upper),
{
    let r = recase(s, upper);
    assert forall|i: int| 0 <= i < r.len() implies '\0' <= #[trigger] r[i] <= '\u{7f}' by {
        assert('\0' <= s[i] <= '\u{7f}');
    }
    assert forall|i: int| 0 <= i < s.len() implies #[trigger] ascii_bytes(r)[i] == recase_bytes(
        ascii_bytes(s),
        upper,
    )[i] by {
        assert('\0' <= s[i] <= '\u{7f}');
    }
    assert(ascii_bytes(r) =~= recase_bytes(ascii_bytes(s), upper));
}

/// A change of case keeps hex digits, and their values, and hyphens.
proof fn lemma_recase_byte(c: u8, upper: bool)
    ensures
        is_hex_digit(c) ==> is_hex_digit(recase_byte(c, upper)) && hex_value(recase_byte(c, upper))
            == hex_value(c),
        c == hyphen() ==> recase_byte(c, upper) == c,
        c == OPEN_BRACE ==> recase_byte(c, upper) == c,
        c == CLOSE_BRACE ==> recase_byte(c, upper) == c,
{
}

proof fn lemma_recase_digits(t: Seq<u8>, upper: bool)
    requires
        is_digit_layout(t),
        t.len() == 32 || t.len() == 36,
    ensures
        is_digit_layout(recase_bytes(t, upper)),
        decode_digit_layout(recase_bytes(t, upper)) == decode_digit_layout(t),
{
    let r = recase_bytes(t, upper);
    if t.len() == 32 {
        assert forall|i: int| 0 <= i < 32 implies is_hex_digit(#[trigger] r[i]) by {
            lemma_recase_byte(t[i], upper);
        }
        assert forall|k: int| 0 <= k < 16 implies #[trigger] decode_simple(r)[k] == decode_simple(
            t,
        )[k] by {
            lemma_recase_byte(t[2 * k], upper);
            lemma_recase_byte(t[2 * k + 1], upper);
            assert(digit_pair(r, 2 * k) == digit_pair(t, 2 * k));
        }
        assert(decode_simple(r) =~= decode_simple(t));
    } else {
        assert forall|i: int| 0 <= i < 36 implies if hyphen_at(i) {
            #[trigger] r[i] == hyphen()
        } else {
            is_hex_digit(r[i])
        } by {
            lemma_recase_byte(t[i], upper);
        }
        lemma_hyphenated_positions();
        assert forall|k: int| 0 <= k < 16 implies #[trigger] decode_hyphenated(r)[k]
            == decode_hyphenated(t)[k] by {
            let p = hyphenated_offset(k);
            lemma_recase_byte(t[p], upper);
            lemma_recase_byte(t[p + 1], upper);
            assert(digit_pair(r, p) == digit_pair(t, p));
        }
        assert(decode_hyphenated(r) =~= decode_hyphenated(t));
    }
}

/// Accepted text stays accepted, spelling the same bytes, under a change of
/// case; in the URN form only when lowered, since its prefix must stay
/// lowercase.
proof fn lemma_recase_text(t: Seq<u8>, upper: bool)
    requires
        is_uuid_text(t),
        upper ==> t.len() != 45,
    ensures
        is_uuid_text(recase_bytes(t, upper)),
        text_bytes(recase_bytes(t, upper)) == text_bytes(t),
{
    let r = recase_bytes(t, upper);
    let d = uuid_digits(t);
    assert(uuid_digits(r) =~= recase_bytes(d, upper));
    lemma_recase_digits(d, upper);
    if t.len() == 45 {
        assert forall|i: int| 0 <= i < 9 implies #[trigger] r.subrange(0, 9)[i] == urn_prefix()[i] by {
            assert(t.subrange(0, 9)[i] == t[i]);
            let q = urn_prefix();
            assert(q[0] == 0x75 && q[1] == 0x72 && q[2] == 0x6E && q[3] == 0x3A && q[4] == 0x75
                && q[5] == 0x75 && q[6] == 0x69 && q[7] == 0x64 && q[8] == 0x3A);
        }
        assert(r.subrange(0, 9) =~= urn_prefix());
    } else if t.len() == 38 {
        lemma_recase_byte(t[0], upper);
        lemma_recase_byte(t[37], upper);
    }
}

/// Parsing ignores the case of hex digits: a string that parses, lowered,
/// parses to the same UUID.
pub proof fn lemma_parse_lowercase(s: Seq<char>)
    requires
        parses(s),
    ensures
        parses(recase(s, false)),
        parsed_bytes(recase(s, false)) == parsed_bytes(s),
{
    lemma_recase_ascii(s, false);
    lemma_recase_text(ascii_bytes(s), false);
}

/// Parsing ignores the case of hex digits: a string that parses, raised to
/// uppercase, parses to the same UUID. The URN form is left out: its
/// prefix `urn:uuid:` is only accepted in lowercase.
pub proof fn lemma_parse_uppercase(s: Seq<char>)
    requires
        parses(s),
        s.len() != 45,
    ensures
        parses(recase(s, true)),
        parsed_bytes(recase(s, true)) == parsed_bytes(s),
{
    lemma_recase_ascii(s, true);
    lemma_recase_text(ascii_bytes(s), true);
}

/// Malformed text is rejected as a whole: text that is not ASCII, of a
/// length other than 32, 36, 38 or 45, whose digit part holds a character
/// that is neither a hex digit nor a hyphen, or whose digit part holds a
/// hyphen anywhere but at the four hyphen positions of the hyphenated form
/// (or lacks one there), does not parse.
pub proof fn lemma_malformed_rejected(s: Seq<char>)
    ensures
        !vstd::utf8::is_ascii_chars(s) ==> !parses(s),
        !(s.len() == 32 || s.len() == 36 || s.len() == 38 || s.len() == 45) ==> !parses(s),
        (exists|i: int|
            0 <= i < uuid_digits(ascii_bytes(s)).len() && !is_hex_digit(
                #[trigger] uuid_digits(ascii_bytes(s))[i],
            ) && uuid_digits(ascii_bytes(s))[i] != hyphen()) ==> !parses(s),
        (exists|i: int|
            0 <= i < uuid_digits(ascii_bytes(s)).len() && (#[trigger] uuid_digits(ascii_bytes(s))[i]
                == hyphen()) != (uuid_digits(ascii_bytes(s)).len() == 36 && hyphen_at(i))) ==> !parses(
            s,
        ),
{
    let t = ascii_bytes(s);
    let d = uuid_digits(t);
    if parses(s) {
        assert(is_digit_layout(d) && (d.len() == 32 || d.len() == 36));
        assert forall|i: int| 0 <= i < d.len() implies is_hex_digit(#[trigger] d[i]) || d[i]
            == hyphen() by {
            if d.len() == 36 {
                assert(hyphen_at(i) ==> d[i] == hyphen());
            }
        }
        assert forall|i: int| 0 <= i < d.len() implies (#[trigger] d[i] == hyphen()) == (d.len()
            == 36 && hyphen_at(i)) by {
            if d.len() == 36 {
                assert(hyphen_at(i) ==> d[i] == hyphen());
            }
        }
    }
}

} // verus!
