//! Hex decoding of the two UUID digit layouts, and the slicing it needs.
use vstd::prelude::*;

use crate::error::ParseUuidError;

verus! {

/// Length of the hyphenated form.
pub const UUID_STR_LENGTH: usize = 36;

/// Length of the simple form, without hyphens.
pub const UUID_SIMPLE_LENGTH: usize = 32;

/// ASCII `0`.
pub const DIGIT_0: u8 = 0x30;
/// ASCII `9`.
pub const DIGIT_9: u8 = 0x39;
/// ASCII `a`.
pub const LOWER_A: u8 = 0x61;
/// ASCII `f`.
pub const LOWER_F: u8 = 0x66;
/// ASCII `A`.
pub const UPPER_A: u8 = 0x41;
/// ASCII `F`.
pub const UPPER_F: u8 = 0x46;
/// ASCII `-`.
pub const HYPHEN: u8 = 0x2D;

/// Whether `c` is an ASCII hex digit, in either case.
pub open spec fn is_hex_digit(c: u8) -> bool {
    (0x30 <= c <= 0x39) || (0x61 <= c <= 0x66) || (0x41 <= c <= 0x46)
}

/// The value of the hex digit `c`.
pub open spec fn hex_value(c: u8) -> int {
    if 0x30 <= c <= 0x39 {
        c - 0x30
    } else if 0x61 <= c <= 0x66 {
        c - 0x61 + 10
    } else {
        c - 0x41 + 10
    }
}

/// The ASCII hyphen.
pub open spec fn hyphen() -> u8 {
    0x2D
}

/// Whether index `i` of the hyphenated form holds a hyphen: after the
/// digit groups of 8, 4, 4 and 4.
pub open spec fn hyphen_at(i: int) -> bool {
    i == 8 || i == 13 || i == 18 || i == 23
}

/// Whether `t` is the hyphenated form: 36 characters, hyphens exactly at
/// the four hyphen positions and hex digits everywhere else.
pub open spec fn is_hyphenated(t: Seq<u8>) -> bool {
    &&& t.len() == 36
    &&& forall|i: int|
        0 <= i < 36 ==> if hyphen_at(i) {
            #[trigger] t[i] == hyphen()
        } else {
            is_hex_digit(t[i])
        }
}

/// Whether `t` is the simple form: 32 hex digits.
pub open spec fn is_simple(t: Seq<u8>) -> bool {
    &&& t.len() == 32
    &&& forall|i: int| 0 <= i < 32 ==> is_hex_digit(#[trigger] t[i])
}

/// Index in the hyphenated form of the high digit of byte `k`.
pub open spec fn hyphenated_offset(k: int) -> int {
    if k < 4 {
        2 * k
    } else if k < 6 {
        2 * k + 1
    } else if k < 8 {
        2 * k + 2
    } else if k < 10 {
        2 * k + 3
    } else {
        2 * k + 4
    }
}

/// Index of the high digit of byte `k`, in the simple layout or in the
/// hyphenated one.
pub open spec fn digit_offset(simple: bool, k: int) -> int {
    if simple {
        2 * k
    } else {
        hyphenated_offset(k)
    }
}

/// The byte that the two hex digits at `i` and `i + 1` of `t` spell, high
/// digit first.
pub open spec fn digit_pair(t: Seq<u8>, i: int) -> u8 {
    (hex_value(t[i]) * 16 + hex_value(t[i + 1])) as u8
}

/// The 16 bytes that the hyphenated form `t` spells.
pub open spec fn decode_hyphenated(t: Seq<u8>) -> Seq<u8> {
    Seq::new(16, |k: int| digit_pair(t, hyphenated_offset(k)))
}

/// The 16 bytes that the simple form `t` spells.
pub open spec fn decode_simple(t: Seq<u8>) -> Seq<u8> {
    Seq::new(16, |k: int| digit_pair(t, 2 * k))
}

/// Whether `t` is a digit layout of its length: simple for 32, hyphenated
/// for 36.
pub open spec fn is_digit_layout(t: Seq<u8>) -> bool {
    if t.len() == 32 {
        is_simple(t)
    } else {
        is_hyphenated(t)
    }
}

/// The 16 bytes that the digit layout `t` spells.
pub open spec fn decode_digit_layout(t: Seq<u8>) -> Seq<u8> {
    if t.len() == 32 {
        decode_simple(t)
    } else {
        decode_hyphenated(t)
    }
}

/// The byte whose digits stand at index `i` of the hyphenated form, for an
/// index that holds no hyphen.
pub open spec fn position_byte(i: int) -> int {
    if i < 8 {
        i / 2
    } else if i < 13 {
        (i - 1) / 2
    } else if i < 18 {
        (i - 2) / 2
    } else if i < 23 {
        (i - 3) / 2
    } else {
        (i - 4) / 2
    }
}

/// The two digits of byte `k` stand at `hyphenated_offset(k)` and the
/// index after it, neither of them a hyphen position; every other index
/// that holds no hyphen is one of those two for the byte `position_byte`
/// names.
pub proof fn lemma_hyphenated_positions()
    ensures
        forall|k: int|
            0 <= k < 16 ==> {
                &&& 0 <= #[trigger] hyphenated_offset(k) && hyphenated_offset(k) + 1 < 36
                &&& !hyphen_at(hyphenated_offset(k)) && !hyphen_at(hyphenated_offset(k) + 1)
                &&& position_byte(hyphenated_offset(k)) == k
                &&& position_byte(hyphenated_offset(k) + 1) == k
            },
        forall|i: int|
            0 <= i < 36 && !hyphen_at(i) ==> {
                &&& 0 <= #[trigger] position_byte(i) < 16
                &&& (i == hyphenated_offset(position_byte(i)) || i == hyphenated_offset(
                    position_byte(i),
                ) + 1)
            },
{
}

/// The part of `bytes` from `start` on.
pub fn const_range_from(bytes: &[u8], start: usize) -> (r: &[u8])
    requires
        start <= bytes@.len(),
    ensures
        r@ == bytes@.subrange(start as int, bytes@.len() as int),
{
    const_range(bytes, start..bytes.len())
}

/// The part of `bytes` that `range` selects.
pub fn const_range(bytes: &[u8], range: core::ops::Range<usize>) -> (r: &[u8])
    requires
        range.start <= range.end <= bytes@.len(),
    ensures
        r@ == bytes@.subrange(range.start as int, range.end as int),
{
    &bytes[range.start..range.end]
}

/// The byte at `idx`, which the caller has shown to be in bounds.
pub fn const_get_unchecked(bytes: &[u8], idx: usize) -> (r: u8)
    requires
        idx < bytes@.len(),
    ensures
        r == bytes@[idx as int],
{
    bytes[idx]
}

/// Whether every byte is a hex digit or a hyphen.
fn _const_is_ascii_hex_dash(bytes: &[u8]) -> (r: bool)
    ensures
        r == forall|i: int|
            0 <= i < bytes@.len() ==> is_hex_digit(#[trigger] bytes@[i]) || bytes@[i] == hyphen(),
{
    let mut i: usize = 0;
    while i < bytes.len()
        invariant
            i <= bytes@.len(),
            forall|j: int| 0 <= j < i ==> is_hex_digit(#[trigger] bytes@[j]) || bytes@[j] == hyphen(),
        decreases bytes@.len() - i,
    {
        let b = bytes[i];
        if !((DIGIT_0 <= b && b <= DIGIT_9) || (UPPER_A <= b && b <= UPPER_F) || (LOWER_A <= b && b <= LOWER_F) || b
            == HYPHEN) {
            return false;
        }
        i = i + 1;
    }
    true
}

/// The value of one text byte: a hex digit's value, `u8::MAX` for a hyphen,
/// an error for anything else.
fn decode_digit(b: u8) -> (r: Result<u8, ParseUuidError>)
    ensures
        is_hex_digit(b) ==> r == Ok::<u8, ParseUuidError>(hex_value(b) as u8),
        b == hyphen() ==> r == Ok::<u8, ParseUuidError>(u8::MAX),
        !is_hex_digit(b) && b != hyphen() ==> r is Err,
{
    if DIGIT_0 <= b && b <= DIGIT_9 {
        Ok(b - DIGIT_0)
    } else if LOWER_A <= b && b <= LOWER_F {
        Ok(b - LOWER_A + 10)
    } else if UPPER_A <= b && b <= UPPER_F {
        Ok(b - UPPER_A + 10)
    } else if b == HYPHEN {
        Ok(u8::MAX)
    } else {
        Err(ParseUuidError::new())
    }
}

/// The value of the hex digit at `i`, or an error if it is none.
fn digit_at(bytes: &[u8], i: usize) -> (r: Result<u8, ParseUuidError>)
    requires
        i < bytes@.len(),
    ensures
        r is Ok <==> is_hex_digit(bytes@[i as int]),
        r is Ok ==> r->Ok_0 == hex_value(bytes@[i as int]),
{
    match decode_digit(const_get_unchecked(bytes, i)) {
        Ok(v) => if v < 16 {
            Ok(v)
        } else {
            Err(ParseUuidError::new())
        },
        Err(e) => Err(e),
    }
}

/// Whether both digits of byte `k` are hex digits that spell `v`.
pub open spec fn pair_decoded(t: Seq<u8>, simple: bool, k: int, v: u8) -> bool {
    &&& is_hex_digit(t[digit_offset(simple, k)])
    &&& is_hex_digit(t[digit_offset(simple, k) + 1])
    &&& v == digit_pair(t, digit_offset(simple, k))
}

/// Decodes the simple (32 digits) or hyphenated (36 characters) layout into
/// 16 bytes, high digit first; hyphens must stand exactly at the four
/// hyphen positions.
pub fn const_hex_decode(bytes: &[u8]) -> (r: Result<[u8; 16], ParseUuidError>)
    requires
        bytes@.len() == UUID_SIMPLE_LENGTH || bytes@.len() == UUID_STR_LENGTH,
    ensures
        r is Ok <==> is_digit_layout(bytes@),
        r is Ok ==> r->Ok_0@ == decode_digit_layout(bytes@),
{
    let len = bytes.len();
    let simple = len == UUID_SIMPLE_LENGTH;
    if !simple {
        if bytes[8] != HYPHEN || bytes[13] != HYPHEN || bytes[18] != HYPHEN || bytes[23] != HYPHEN {
            return Err(ParseUuidError::new());
        }
    }
    let ghost t = bytes@;
    let mut out = [0u8; 16];
    let mut k: usize = 0;
    while k < 16
        invariant
            k <= 16,
            t == bytes@,
            simple == (t.len() == 32),
            t.len() == 32 || t.len() == 36,
            !simple ==> t[8] == hyphen() && t[13] == hyphen() && t[18] == hyphen() && t[23]
                == hyphen(),
            forall|j: int| 0 <= j < k ==> pair_decoded(t, simple, j, #[trigger] out[j]),
        decreases 16 - k,
    {
        let p: usize = if simple {
            2 * k
        } else if k < 4 {
            2 * k
        } else if k < 6 {
            2 * k + 1
        } else if k < 8 {
            2 * k + 2
        } else if k < 10 {
            2 * k + 3
        } else {
            2 * k + 4
        };
        let h = match digit_at(bytes, p) {
            Ok(h) => h,
            Err(e) => {
                proof {
                    if !simple {
                        assert(!hyphen_at(p as int));
                    }
                }
                return Err(e);
            },
        };
        let l = match digit_at(bytes, p + 1) {
            Ok(l) => l,
            Err(e) => {
                proof {
                    if !simple {
                        assert(!hyphen_at(p + 1));
                    }
                }
                return Err(e);
            },
        };
        assert(p == digit_offset(simple, k as int));
        let ghost before = out;
        out[k] = h * 16 + l;
        assert(out[k as int] == digit_pair(t, p as int));
        assert forall|j: int| 0 <= j < k + 1 implies pair_decoded(t, simple, j, #[trigger] out[j]) by {
            if j < k {
                assert(out[j] == before[j]);
            }
        }
        k = k + 1;
    }
    proof {
        if simple {
            assert forall|i: int| 0 <= i < 32 implies is_hex_digit(#[trigger] t[i]) by {
                let j = i / 2;
                assert(pair_decoded(t, simple, j, out[j]));
            }
            assert(out@ =~= decode_simple(t));
        } else {
            assert forall|i: int| 0 <= i < 36 implies if hyphen_at(i) {
                #[trigger] t[i] == hyphen()
            } else {
                is_hex_digit(t[i])
            } by {
                if !hyphen_at(i) {
                    lemma_hyphenated_positions();
                    let j = position_byte(i);
                    assert(pair_decoded(t, simple, j, out[j]));
                }
            }
            assert(out@ =~= decode_hyphenated(t));
        }
    }
    Ok(out)
}

} // verus!
