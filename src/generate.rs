//! Construction of UUIDs of each version: random, name-based, time-based
//! and vendor-specific. Each tags its result with the RFC variant and its
//! own version as the last step.
use vstd::prelude::*;

use md5::Md5;
use rand_chacha::ChaCha20Rng;
use rand_core::{OsRng, RngCore, SeedableRng};
use sha1::{Digest, Sha1};

use crate::types::{variant_of, version_of, Variant, Version};
use crate::{clock_sequence_of, lemma_tagged, tagged, timestamp_of, Uuid};

verus! {

/// The MD5 digest of `data`.
pub uninterp spec fn md5_of(data: Seq<u8>) -> Seq<u8>;

/// The SHA-1 digest of `data`.
pub uninterp spec fn sha1_of(data: Seq<u8>) -> Seq<u8>;

/// Relies on `md5::Md5::digest` (through `digest::Digest`): the 16-byte MD5
/// digest of `data`, which depends on `data` alone.
#[verifier::external_body]
fn md5_digest(data: &[u8]) -> (r: [u8; 16])
    ensures
        r@ == md5_of(data@),
{
    Md5::digest(data).into()
}

/// Relies on `sha1::Sha1::digest` (through `digest::Digest`): the 20-byte
/// SHA-1 digest of `data`, which depends on `data` alone.
#[verifier::external_body]
fn sha1_digest(data: &[u8]) -> (r: [u8; 20])
    ensures
        r@ == sha1_of(data@),
{
    Sha1::digest(data).into()
}

#[verifier::external_type_specification]
#[verifier::external_body]
pub struct ExChaCha20Rng(ChaCha20Rng);

/// Relies on `rand_core::SeedableRng::from_rng` for `ChaCha20Rng`, given
/// `rand_core::OsRng`: a generator seeded once from the operating system's
/// entropy source, or `None` where that source fails.
#[verifier::external_body]
fn chacha_from_os_rng() -> (r: Option<ChaCha20Rng>) {
    ChaCha20Rng::from_rng(OsRng).ok()
}

/// Relies on `rand_chacha::ChaCha20Rng::from_seed`: a generator whose
/// stream is fixed by `seed`.
#[verifier::external_body]
fn chacha_from_seed(seed: [u8; 32]) -> (r: ChaCha20Rng) {
    ChaCha20Rng::from_seed(seed)
}

/// Relies on `rand_chacha::ChaCha20Rng::fill_bytes`: the next 16 bytes of
/// the generator's stream. Nothing is known of their values.
#[verifier::external_body]
fn chacha_fill_16(rng: &mut ChaCha20Rng) -> (r: [u8; 16]) {
    let mut bytes = [0u8; 16];
    rng.fill_bytes(&mut bytes);
    bytes
}

/// A reusable, cryptographically secure random number generator for
/// random UUIDs. One owner at a time may advance it.
pub struct Rng {
    rng: ChaCha20Rng,
}

impl Rng {
    /// A generator seeded once from the operating system's entropy source,
    /// or `None` where that source fails.
    pub fn new() -> (r: Option<Rng>) {
        match chacha_from_os_rng() {
            Some(rng) => Some(Rng { rng }),
            None => None,
        }
    }

    /// A generator seeded from `seed`, for reproducible output.
    pub fn from_seed(seed: [u8; 32]) -> (r: Rng) {
        Rng { rng: chacha_from_seed(seed) }
    }

    /// The next 16 random bytes.
    fn next_bytes(&mut self) -> (r: [u8; 16]) {
        chacha_fill_16(&mut self.rng)
    }
}

/// The bytes that the namespace-and-name UUIDs hash: the namespace's 16
/// bytes, then the name.
pub open spec fn name_input(namespace: Seq<u8>, name: Seq<u8>) -> Seq<u8> {
    namespace + name
}

/// The bytes of the version 1 layout, before tagging: `time_low`,
/// `time_mid` and the top twelve bits of the 60-bit timestamp, then the
/// 14-bit clock sequence, then the node.
pub open spec fn gregorian_fields(timestamp: u64, counter: u16, node: Seq<u8>) -> Seq<u8> {
    seq![
        (timestamp as int / 0x100_0000 % 256) as u8,
        (timestamp as int / 0x1_0000 % 256) as u8,
        (timestamp as int / 0x100 % 256) as u8,
        (timestamp as int % 256) as u8,
        (timestamp as int / 0x100_0000_0000 % 256) as u8,
        (timestamp as int / 0x1_0000_0000 % 256) as u8,
        (timestamp as int / 0x100_0000_0000_0000 % 16) as u8,
        (timestamp as int / 0x1_0000_0000_0000 % 256) as u8,
        (counter as int / 0x100 % 64) as u8,
        (counter as int % 256) as u8,
    ] + node
}

/// The bytes of the version 6 layout, before tagging: the 60-bit
/// timestamp from its most significant bit down, then the 14-bit clock
/// sequence, then the node.
pub open spec fn reordered_fields(timestamp: u64, counter: u16, node: Seq<u8>) -> Seq<u8> {
    seq![
        (timestamp as int / 0x10_0000_0000_0000 % 256) as u8,
        (timestamp as int / 0x1000_0000_0000 % 256) as u8,
        (timestamp as int / 0x10_0000_0000 % 256) as u8,
        (timestamp as int / 0x1000_0000 % 256) as u8,
        (timestamp as int / 0x10_0000 % 256) as u8,
        (timestamp as int / 0x1000 % 256) as u8,
        (timestamp as int / 0x100 % 16) as u8,
        (timestamp as int % 256) as u8,
        (counter as int / 0x100 % 64) as u8,
        (counter as int % 256) as u8,
    ] + node
}

/// The bytes of the version 7 layout, before tagging: the low 48 bits of
/// the Unix time in milliseconds, then the ten random bytes.
pub open spec fn unix_time_fields(unix_ts_ms: u64, random: Seq<u8>) -> Seq<u8> {
    seq![
        (unix_ts_ms as int / 0x100_0000_0000 % 256) as u8,
        (unix_ts_ms as int / 0x1_0000_0000 % 256) as u8,
        (unix_ts_ms as int / 0x100_0000 % 256) as u8,
        (unix_ts_ms as int / 0x1_0000 % 256) as u8,
        (unix_ts_ms as int / 0x100 % 256) as u8,
        (unix_ts_ms as int % 256) as u8,
    ] + random
}

/// The version 1 fields of a timestamp and counter put back together give
/// their low 60 and 14 bits.
proof fn lemma_time_fields(t: u64, c: u16)
    ensures
        (t / 0x100_0000_0000_0000 % 16) * 0x100_0000_0000_0000 + (t / 0x1_0000_0000_0000 % 256)
            * 0x1_0000_0000_0000 + (t / 0x100_0000_0000 % 256) * 0x100_0000_0000 + (t
            / 0x1_0000_0000 % 256) * 0x1_0000_0000 + (t / 0x100_0000 % 256) * 0x100_0000 + (t
            / 0x1_0000 % 256) * 0x1_0000 + (t / 0x100 % 256) * 0x100 + t % 256 == t
            % 0x1000_0000_0000_0000,
        (c / 0x100 % 64) * 256 + c % 256 == c % 0x4000,
{
    assert((t / 0x100_0000_0000_0000 % 16) * 0x100_0000_0000_0000 + (t / 0x1_0000_0000_0000 % 256)
        * 0x1_0000_0000_0000 + (t / 0x100_0000_0000 % 256) * 0x100_0000_0000 + (t / 0x1_0000_0000
        % 256) * 0x1_0000_0000 + (t / 0x100_0000 % 256) * 0x100_0000 + (t / 0x1_0000 % 256)
        * 0x1_0000 + (t / 0x100 % 256) * 0x100 + t % 256 == t % 0x1000_0000_0000_0000)
        by (bit_vector);
    assert((c / 0x100 % 64) * 256 + c % 256 == c % 0x4000) by (bit_vector);
}

/// The clock sequence and node bytes shared by versions 1 and 6.
fn clock_and_node(counter: u16, node: [u8; 6], out: &mut [u8; 16])
    ensures
        final(out)@ == old(out)@.subrange(0, 8) + seq![
            (counter as int / 0x100 % 64) as u8,
            (counter as int % 256) as u8,
        ] + node@,
{
    out[8] = (counter / 0x100 % 64) as u8;
    out[9] = (counter % 256) as u8;
    out[10] = node[0];
    out[11] = node[1];
    out[12] = node[2];
    out[13] = node[3];
    out[14] = node[4];
    out[15] = node[5];
    assert(out@ =~= old(out)@.subrange(0, 8) + seq![
        (counter as int / 0x100 % 64) as u8,
        (counter as int % 256) as u8,
    ] + node@);
}

impl Uuid {
    /// The version 4 UUID made of 16 random bytes: all bits are kept but
    /// the version and variant bits.
    pub fn from_random_bytes(bytes: [u8; 16]) -> (r: Uuid)
        ensures
            r@ == tagged(bytes@, 4),
            variant_of(r@[8]) == Variant::Rfc,
            version_of(r@[6]) == Version::Random,
    {
        proof {
            lemma_tagged(bytes@, 4);
        }
        Uuid::tag(bytes, 4)
    }

    /// A random UUID, from a generator seeded for this call alone; `None`
    /// where the operating system's entropy source fails.
    pub fn new_v4() -> (r: Option<Uuid>)
        ensures
            r is Some ==> variant_of(r->Some_0@[8]) == Variant::Rfc,
            r is Some ==> version_of(r->Some_0@[6]) == Version::Random,
    {
        match Rng::new() {
            Some(mut rng) => Some(Uuid::new_v4_rng(&mut rng)),
            None => None,
        }
    }

    /// A random UUID, from the bytes that `rng` gives next.
    pub fn new_v4_rng(rng: &mut Rng) -> (r: Uuid)
        ensures
            variant_of(r@[8]) == Variant::Rfc,
            version_of(r@[6]) == Version::Random,
    {
        let bytes = rng.next_bytes();
        Uuid::from_random_bytes(bytes)
    }

    /// The version 3 UUID that an MD5 digest gives.
    pub fn from_md5_hash(digest: [u8; 16]) -> (r: Uuid)
        ensures
            r@ == tagged(digest@, 3),
            variant_of(r@[8]) == Variant::Rfc,
            version_of(r@[6]) == Version::Md5,
    {
        proof {
            lemma_tagged(digest@, 3);
        }
        Uuid::tag(digest, 3)
    }

    /// The version 5 UUID that a SHA-1 digest gives: its first 16 bytes.
    pub fn from_sha1_hash(digest: [u8; 20]) -> (r: Uuid)
        ensures
            r@ == tagged(digest@.subrange(0, 16), 5),
            variant_of(r@[8]) == Variant::Rfc,
            version_of(r@[6]) == Version::Sha1,
    {
        let d = digest;
        let bytes = [
            d[0], d[1], d[2], d[3], d[4], d[5], d[6], d[7],
            d[8], d[9], d[10], d[11], d[12], d[13], d[14], d[15],
        ];
        assert(bytes@ =~= digest@.subrange(0, 16));
        proof {
            lemma_tagged(bytes@, 5);
        }
        Uuid::tag(bytes, 5)
    }

    /// The version 3 UUID of `name` in `namespace`: the MD5 digest of the
    /// namespace's bytes followed by the name. Version 5 is preferred.
    pub fn new_v3(namespace: Uuid, name: &[u8]) -> (r: Uuid)
        ensures
            r@ == tagged(md5_of(name_input(namespace@, name@)), 3),
            variant_of(r@[8]) == Variant::Rfc,
            version_of(r@[6]) == Version::Md5,
    {
        let data = name_input_exec(namespace, name);
        Uuid::from_md5_hash(md5_digest(data.as_slice()))
    }

    /// The version 5 UUID of `name` in `namespace`: the first 16 bytes of
    /// the SHA-1 digest of the namespace's bytes followed by the name.
    pub fn new_v5(namespace: Uuid, name: &[u8]) -> (r: Uuid)
        ensures
            r@ == tagged(sha1_of(name_input(namespace@, name@)).subrange(0, 16), 5),
            variant_of(r@[8]) == Variant::Rfc,
            version_of(r@[6]) == Version::Sha1,
    {
        let data = name_input_exec(namespace, name);
        let digest = sha1_digest(data.as_slice());
        Uuid::from_sha1_hash(digest)
    }

    /// The version 1 UUID of a 60-bit timestamp (100 ns intervals since
    /// 1582-10-15), a 14-bit counter and a 48-bit node. Higher bits of the
    /// timestamp and counter are dropped.
    pub fn new_v1(timestamp: u64, counter: u16, node: [u8; 6]) -> (r: Uuid)
        ensures
            r@ == tagged(gregorian_fields(timestamp, counter, node@), 1),
            variant_of(r@[8]) == Variant::Rfc,
            version_of(r@[6]) == Version::Gregorian,
            timestamp_of(r@) == timestamp % 0x1000_0000_0000_0000,
            clock_sequence_of(r@) == counter % 0x4000,
            r@.subrange(10, 16) == node@,
    {
        let t = timestamp;
        let mut out = [0u8; 16];
        out[0] = (t / 0x100_0000 % 256) as u8;
        out[1] = (t / 0x1_0000 % 256) as u8;
        out[2] = (t / 0x100 % 256) as u8;
        out[3] = (t % 256) as u8;
        out[4] = (t / 0x100_0000_0000 % 256) as u8;
        out[5] = (t / 0x1_0000_0000 % 256) as u8;
        out[6] = (t / 0x100_0000_0000_0000 % 16) as u8;
        out[7] = (t / 0x1_0000_0000_0000 % 256) as u8;
        clock_and_node(counter, node, &mut out);
        assert(out@ =~= gregorian_fields(timestamp, counter, node@));
        proof {
            lemma_tagged(out@, 1);
            lemma_time_fields(timestamp, counter);
        }
        let r = Uuid::tag(out, 1);
        assert(r@.subrange(10, 16) =~= node@);
        r
    }

    /// The version 6 UUID: the fields of version 1 with the timestamp
    /// reordered most significant bits first, so that the bytes sort by
    /// time.
    pub fn new_v6(timestamp: u64, counter: u16, node: [u8; 6]) -> (r: Uuid)
        ensures
            r@ == tagged(reordered_fields(timestamp, counter, node@), 6),
            variant_of(r@[8]) == Variant::Rfc,
            version_of(r@[6]) == Version::Database,
    {
        let t = timestamp;
        let mut out = [0u8; 16];
        out[0] = (t / 0x10_0000_0000_0000 % 256) as u8;
        out[1] = (t / 0x1000_0000_0000 % 256) as u8;
        out[2] = (t / 0x10_0000_0000 % 256) as u8;
        out[3] = (t / 0x1000_0000 % 256) as u8;
        out[4] = (t / 0x10_0000 % 256) as u8;
        out[5] = (t / 0x1000 % 256) as u8;
        out[6] = (t / 0x100 % 16) as u8;
        out[7] = (t % 256) as u8;
        clock_and_node(counter, node, &mut out);
        assert(out@ =~= reordered_fields(timestamp, counter, node@));
        proof {
            lemma_tagged(out@, 6);
        }
        Uuid::tag(out, 6)
    }

    /// The version 7 UUID of a Unix time in milliseconds (its low 48 bits)
    /// and ten random bytes, of which the version and variant bits leave
    /// 12 bits of "random A" and 62 of "random B".
    pub fn new_v7(unix_ts_ms: u64, random: [u8; 10]) -> (r: Uuid)
        ensures
            r@ == tagged(unix_time_fields(unix_ts_ms, random@), 7),
            variant_of(r@[8]) == Variant::Rfc,
            version_of(r@[6]) == Version::UnixTime,
    {
        let t = unix_ts_ms;
        let x = random;
        let out = [
            (t / 0x100_0000_0000 % 256) as u8,
            (t / 0x1_0000_0000 % 256) as u8,
            (t / 0x100_0000 % 256) as u8,
            (t / 0x1_0000 % 256) as u8,
            (t / 0x100 % 256) as u8,
            (t % 256) as u8,
            x[0], x[1], x[2], x[3], x[4], x[5], x[6], x[7], x[8], x[9],
        ];
        assert(out@ =~= unix_time_fields(unix_ts_ms, random@));
        proof {
            lemma_tagged(out@, 7);
        }
        Uuid::tag(out, 7)
    }

    /// A version 7 UUID of a Unix time in milliseconds, with its random
    /// bits from `rng`.
    pub fn new_v7_rng(unix_ts_ms: u64, rng: &mut Rng) -> (r: Uuid)
        ensures
            r@.subrange(0, 6) == unix_time_fields(unix_ts_ms, seq![]).subrange(0, 6),
            variant_of(r@[8]) == Variant::Rfc,
            version_of(r@[6]) == Version::UnixTime,
    {
        let b = rng.next_bytes();
        let r = Uuid::new_v7(unix_ts_ms, [b[0], b[1], b[2], b[3], b[4], b[5], b[6], b[7], b[8], b[9]]);
        assert(r@.subrange(0, 6) =~= unix_time_fields(unix_ts_ms, seq![]).subrange(0, 6));
        r
    }

    /// The version 8 UUID of 16 caller-chosen bytes: every bit passes
    /// through but the version and variant bits.
    pub fn new_v8(bytes: [u8; 16]) -> (r: Uuid)
        ensures
            r@ == tagged(bytes@, 8),
            variant_of(r@[8]) == Variant::Rfc,
            version_of(r@[6]) == Version::Vendor,
    {
        proof {
            lemma_tagged(bytes@, 8);
        }
        Uuid::tag(bytes, 8)
    }
}

/// The namespace's bytes followed by the name, as one buffer.
fn name_input_exec(namespace: Uuid, name: &[u8]) -> (r: Vec<u8>)
    ensures
        r@ == name_input(namespace@, name@),
{
    let ns = namespace.as_bytes();
    let mut data: Vec<u8> = Vec::new();
    let mut i: usize = 0;
    while i < 16
        invariant
            i <= 16,
            ns@ == namespace@,
            data@ == namespace@.subrange(0, i as int),
        decreases 16 - i,
    {
        data.push(ns[i]);
        i = i + 1;
        assert(data@ =~= namespace@.subrange(0, i as int));
    }
    let mut j: usize = 0;
    while j < name.len()
        invariant
            j <= name@.len(),
            data@ == namespace@ + name@.subrange(0, j as int),
        decreases name@.len() - j,
    {
        data.push(name[j]);
        j = j + 1;
        assert(data@ =~= namespace@ + name@.subrange(0, j as int));
    }
    assert(data@ =~= name_input(namespace@, name@));
    data
}

} // verus!
