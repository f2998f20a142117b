//! The variant and version that the bits of a UUID name.
use vstd::prelude::*;

verus! {

/// UUID variant: which family of UUID layouts a value belongs to.
#[derive(Debug, Copy, Clone, PartialEq, Eq, Structural, PartialOrd, Ord, Hash)]
#[non_exhaustive]
pub enum Variant {
    /// Network Computing System backward compatibility; holds the nil UUID.
    Ncs,
    /// The layout of RFC 4122 and its successors.
    Rfc,
    /// Reserved for Microsoft backward compatibility.
    Microsoft,
    /// Reserved for the future; holds the max UUID.
    Reserved,
}

} // verus!

verus! {

/// UUID version: which algorithm made an RFC-variant UUID.
#[derive(Debug, Copy, Clone, PartialEq, Eq, Structural, PartialOrd, Ord, Hash)]
#[non_exhaustive]
pub enum Version {
    /// The nil UUID, or an unused version number.
    Unused,
    /// Version 1, Gregorian time.
    Gregorian,
    /// Version 2, DCE security.
    Dce,
    /// Version 3, MD5 hash of a namespace and a name.
    Md5,
    /// Version 4, random.
    Random,
    /// Version 5, SHA-1 hash of a namespace and a name.
    Sha1,
    /// Version 6, reordered Gregorian time, for database locality.
    Database,
    /// Version 7, Unix time in milliseconds.
    UnixTime,
    /// Version 8, application or vendor specific.
    Vendor,
    /// Versions 9 to 15, reserved.
    Reserved,
}

/// The variant that byte 8 of a UUID names, read from its top three bits:
/// `0xx` is NCS, `10x` is RFC, `110` is Microsoft and `111` is reserved.
pub open spec fn variant_of(byte8: u8) -> Variant {
    if byte8 < 0x80 {
        Variant::Ncs
    } else if byte8 < 0xC0 {
        Variant::Rfc
    } else if byte8 < 0xE0 {
        Variant::Microsoft
    } else {
        Variant::Reserved
    }
}

/// The version that a four-bit version number names.
pub open spec fn version_of_number(n: int) -> Version {
    if n == 0 {
        Version::Unused
    } else if n == 1 {
        Version::Gregorian
    } else if n == 2 {
        Version::Dce
    } else if n == 3 {
        Version::Md5
    } else if n == 4 {
        Version::Random
    } else if n == 5 {
        Version::Sha1
    } else if n == 6 {
        Version::Database
    } else if n == 7 {
        Version::UnixTime
    } else if n == 8 {
        Version::Vendor
    } else {
        Version::Reserved
    }
}

/// The version that byte 6 of a UUID names, read from its top four bits.
pub open spec fn version_of(byte6: u8) -> Version {
    version_of_number(byte6 as int / 16)
}

/// Reads the variant from byte 8 of a UUID.
pub fn variant_from_byte(byte8: u8) -> (r: Variant)
    ensures
        r == variant_of(byte8),
{
    let top = byte8 >> 5;
    proof {
        assert(byte8 >> 5 & 0b100 == 0 <==> byte8 < 0x80) by (bit_vector);
        assert(byte8 >> 5 & 0b010 == 0 <==> byte8 & 0x40 == 0) by (bit_vector);
        assert(byte8 >> 5 & 0b001 == 0 <==> byte8 & 0x20 == 0) by (bit_vector);
        assert(byte8 >= 0x80 ==> (byte8 & 0x40 == 0 <==> byte8 < 0xC0)) by (bit_vector);
        assert(byte8 >= 0xC0 ==> (byte8 & 0x20 == 0 <==> byte8 < 0xE0)) by (bit_vector);
    }
    if top & 0b100 == 0 {
        Variant::Ncs
    } else if top & 0b010 == 0 {
        Variant::Rfc
    } else if top & 0b001 == 0 {
        Variant::Microsoft
    } else {
        Variant::Reserved
    }
}

} // verus!

verus! {

/// Reads the version from byte 6 of a UUID.
pub fn version_from_byte(byte6: u8) -> (r: Version)
    ensures
        r == version_of(byte6),
{
    let n = byte6 >> 4;
    assert(byte6 >> 4 == byte6 / 16) by (bit_vector);
    match n {
        0 => Version::Unused,
        1 => Version::Gregorian,
        2 => Version::Dce,
        3 => Version::Md5,
        4 => Version::Random,
        5 => Version::Sha1,
        6 => Version::Database,
        7 => Version::UnixTime,
        8 => Version::Vendor,
        _ => Version::Reserved,
    }
}

} // verus!
