//! Create, inspect, parse and format UUIDs.
//!
//! A [`Uuid`] is 16 bytes laid out most significant byte first. Every
//! operation here is a pure function of those bytes, and each one is stated
//! over the byte sequence that [`Uuid`]'s view gives.
use vstd::prelude::*;

pub mod defs;
pub mod error;
pub mod generate;
pub mod imp;
pub mod laws;
pub mod text;
pub mod types;

pub use crate::defs::{namespace_dns, namespace_oid, namespace_url, namespace_x500};
pub use crate::error::{NuuidError, ParseUuidError};
pub use crate::generate::Rng;
pub use crate::types::{Variant, Version};

use crate::types::{variant_from_byte, variant_of, version_from_byte, version_of};

verus! {

/// Universally Unique Identifier, or UUID.
///
/// It is advised to treat UUIDs as opaque blobs of bytes: the meaning of the
/// "fields" depends on the variant and version, and they are laid out most
/// significant byte first.
#[derive(Copy, Clone, Hash, Eq, PartialOrd, Ord, Debug)]
pub struct Uuid {
    bytes: [u8; 16],
}

impl View for Uuid {
    type V = Seq<u8>;

    closed spec fn view(&self) -> Seq<u8> {
        self.bytes@
    }
}

/// A UUID is its bytes: two with the same view are the same value, and
/// every view has sixteen bytes.
pub proof fn lemma_uuid_view(a: Uuid, b: Uuid)
    ensures
        a@.len() == 16,
        a@ == b@ ==> a == b,
{
    if a@ == b@ {
        assert(a.bytes =~= b.bytes);
    }
}

impl PartialEq for Uuid {
    /// Two UUIDs are equal when their bytes are.
    fn eq(&self, other: &Uuid) -> (r: bool) {
        let mut i: usize = 0;
        while i < 16
            invariant
                i <= 16,
                forall|j: int| 0 <= j < i ==> self.bytes[j] == other.bytes[j],
            decreases 16 - i,
        {
            if self.bytes[i] != other.bytes[i] {
                return false;
            }
            i = i + 1;
        }
        assert(self.bytes@ =~= other.bytes@);
        true
    }
}

impl Default for Uuid {
    /// The nil UUID.
    fn default() -> (r: Uuid)
        ensures
            r@ == filled(0),
    {
        Uuid::nil()
    }
}

impl vstd::std_specs::cmp::PartialEqSpecImpl for Uuid {
    open spec fn obeys_eq_spec() -> bool {
        true
    }

    open spec fn eq_spec(&self, other: &Uuid) -> bool {
        self@ == other@
    }
}

/// Sixteen copies of `v`: the bytes of the nil and max UUIDs.
pub open spec fn filled(v: u8) -> Seq<u8> {
    Seq::new(16, |_i: int| v)
}

/// The 60-bit timestamp of a time-based layout: the low twelve bits of
/// `time_hi_and_version` (bytes 6 and 7, version masked out), then
/// `time_mid` (bytes 4 and 5), then `time_low` (bytes 0 to 3).
pub open spec fn timestamp_of(b: Seq<u8>) -> int {
    (b[6] % 16) * 0x0100_0000_0000_0000 + b[7] * 0x0001_0000_0000_0000 + b[4] * 0x0100_0000_0000
        + b[5] * 0x0001_0000_0000 + b[0] * 0x0100_0000 + b[1] * 0x0001_0000 + b[2] * 0x0100 + b[3]
}

/// The 14-bit clock sequence: byte 8 with the variant bits masked out, then
/// byte 9.
pub open spec fn clock_sequence_of(b: Seq<u8>) -> int {
    (b[8] % 64) * 256 + b[9]
}

/// The mixed-endian reordering: `time_low` (bytes 0 to 3), `time_mid`
/// (bytes 4 and 5) and `time_hi_and_version` (bytes 6 and 7) each have their
/// bytes reversed; the clock sequence and node stay as they are.
pub open spec fn swap_fields(b: Seq<u8>) -> Seq<u8> {
    seq![b[3], b[2], b[1], b[0], b[5], b[4], b[7], b[6]] + b.subrange(8, 16)
}

/// Byte 6 with its top four bits replaced by the version number `v`.
pub open spec fn with_version_bits(byte6: u8, v: int) -> u8 {
    (v * 16 + byte6 % 16) as u8
}

/// Byte 8 with its top two bits replaced by `10`, the RFC variant.
pub open spec fn with_rfc_variant_bits(byte8: u8) -> u8 {
    (0x80 + byte8 % 64) as u8
}

/// `b` tagged as an RFC UUID of version `v`: only the four version bits of
/// byte 6 and the two variant bits of byte 8 change.
pub open spec fn tagged(b: Seq<u8>, v: int) -> Seq<u8> {
    b.update(6, with_version_bits(b[6], v)).update(8, with_rfc_variant_bits(b[8]))
}

/// Tagging sets the variant to RFC and the version to `v`, whatever the
/// bytes were.
pub proof fn lemma_tagged(b: Seq<u8>, v: int)
    requires
        b.len() == 16,
        0 <= v < 16,
    ensures
        tagged(b, v).len() == 16,
        variant_of(tagged(b, v)[8]) == Variant::Rfc,
        version_of(tagged(b, v)[6]) == crate::types::version_of_number(v),
        forall|i: int| 0 <= i < 16 && i != 6 && i != 8 ==> #[trigger] tagged(b, v)[i] == b[i],
{
    let b6 = b[6];
    assert((v * 16 + b6 % 16) / 16 == v);
}

impl Uuid {
    /// The UUID whose bytes are `bytes`, in order.
    pub fn from_bytes(bytes: [u8; 16]) -> (r: Uuid)
        ensures
            r@ == bytes@,
    {
        Uuid { bytes }
    }

    /// The 16 bytes of this UUID, in order.
    pub fn to_bytes(self) -> (r: [u8; 16])
        ensures
            r@ == self@,
    {
        self.bytes
    }

    /// This UUID as a reference to its 16 bytes.
    pub fn as_bytes(&self) -> (r: &[u8; 16])
        ensures
            r@ == self@,
    {
        &self.bytes
    }

    /// The special all-zero "nil" UUID.
    pub fn nil() -> (r: Uuid)
        ensures
            r@ == filled(0),
    {
        let r = Uuid { bytes: [0u8; 16] };
        assert(r@ =~= filled(0));
        r
    }

    /// The special all-one "max" UUID.
    pub fn max() -> (r: Uuid)
        ensures
            r@ == filled(0xFF),
    {
        let r = Uuid { bytes: [0xFFu8; 16] };
        assert(r@ =~= filled(0xFF));
        r
    }

    /// Whether every byte is zero.
    pub fn is_nil(&self) -> (r: bool)
        ensures
            r == (self@ == filled(0)),
    {
        let mut i: usize = 0;
        while i < 16
            invariant
                i <= 16,
                forall|j: int| 0 <= j < i ==> self.bytes[j] == 0,
            decreases 16 - i,
        {
            if self.bytes[i] != 0 {
                assert(self@[i as int] != filled(0)[i as int]);
                return false;
            }
            i = i + 1;
        }
        assert(self@ =~= filled(0));
        true
    }

    /// The variant, read from the top bits of byte 8.
    pub fn variant(&self) -> (r: Variant)
        ensures
            r == variant_of(self@[8]),
    {
        variant_from_byte(self.bytes[8])
    }

    /// The version, read from the top four bits of byte 6. Only meaningful
    /// for the RFC variant; unknown numbers read as reserved.
    pub fn version(&self) -> (r: Version)
        ensures
            r == version_of(self@[6]),
    {
        version_from_byte(self.bytes[6])
    }

    /// The 60-bit timestamp of a time-based UUID. Defined, though
    /// meaningless, for every other UUID.
    pub fn timestamp(&self) -> (r: u64)
        ensures
            r == timestamp_of(self@),
            r < 0x1000_0000_0000_0000,
    {
        let b = &self.bytes;
        ((b[6] % 16) as u64) * 0x0100_0000_0000_0000 + (b[7] as u64) * 0x0001_0000_0000_0000
            + (b[4] as u64) * 0x0100_0000_0000 + (b[5] as u64) * 0x0001_0000_0000
            + (b[0] as u64) * 0x0100_0000 + (b[1] as u64) * 0x0001_0000 + (b[2] as u64) * 0x0100
            + (b[3] as u64)
    }

    /// The 14-bit clock sequence of a time-based UUID, variant bits masked.
    pub fn clock_sequence(&self) -> (r: u16)
        ensures
            r == clock_sequence_of(self@),
            r < 0x4000,
    {
        ((self.bytes[8] % 64) as u16) * 256 + (self.bytes[9] as u16)
    }

    /// The 48-bit node identifier: bytes 10 to 15.
    pub fn node(&self) -> (r: [u8; 6])
        ensures
            r@ == self@.subrange(10, 16),
    {
        let b = &self.bytes;
        let r = [b[10], b[11], b[12], b[13], b[14], b[15]];
        assert(r@ =~= self@.subrange(10, 16));
        r
    }

    /// This UUID with the byte order of its first three fields reversed,
    /// converting between the canonical and the mixed-endian layout.
    pub fn swap_endian(self) -> (r: Uuid)
        ensures
            r@ == swap_fields(self@),
    {
        let b = self.bytes;
        let r = Uuid {
            bytes: [
                b[3], b[2], b[1], b[0], b[5], b[4], b[7], b[6],
                b[8], b[9], b[10], b[11], b[12], b[13], b[14], b[15],
            ],
        };
        assert(r@ =~= swap_fields(self@));
        r
    }

    /// The UUID whose mixed-endian bytes are `bytes`.
    pub fn from_bytes_me(bytes: [u8; 16]) -> (r: Uuid)
        ensures
            r@ == swap_fields(bytes@),
    {
        Uuid::from_bytes(bytes).swap_endian()
    }

    /// The bytes of this UUID in the mixed-endian layout.
    pub fn to_bytes_me(self) -> (r: [u8; 16])
        ensures
            r@ == swap_fields(self@),
    {
        self.swap_endian().to_bytes()
    }

    /// Replaces the four version bits with `v`, keeping every other bit.
    pub(crate) fn set_version(&mut self, v: u8)
        requires
            v < 16,
        ensures
            final(self)@ == old(self)@.update(6, with_version_bits(old(self)@[6], v as int)),
    {
        let b6 = self.bytes[6];
        self.bytes[6] = v * 16 + b6 % 16;
        assert(self@ =~= old(self)@.update(6, with_version_bits(old(self)@[6], v as int)));
    }

    /// Replaces the two variant bits with those of the RFC variant, keeping
    /// every other bit.
    pub(crate) fn set_rfc_variant(&mut self)
        ensures
            final(self)@ == old(self)@.update(8, with_rfc_variant_bits(old(self)@[8])),
    {
        let b8 = self.bytes[8];
        self.bytes[8] = 0x80 + b8 % 64;
        assert(self@ =~= old(self)@.update(8, with_rfc_variant_bits(old(self)@[8])));
    }

    /// Tags the bytes as an RFC UUID of version `v`.
    pub(crate) fn tag(bytes: [u8; 16], v: u8) -> (r: Uuid)
        requires
            v < 16,
        ensures
            r@ == tagged(bytes@, v as int),
    {
        let mut r = Uuid { bytes };
        r.set_version(v);
        r.set_rfc_variant();
        r
    }
}

} // verus!
