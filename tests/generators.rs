use nuuid::{
    namespace_dns, namespace_oid, namespace_url, namespace_x500, Rng, Uuid, Variant, Version,
};

fn text(u: &Uuid) -> String {
    let mut buf = [0u8; 36];
    u.to_str(&mut buf);
    String::from_utf8(buf.to_vec()).unwrap()
}

#[test]
fn namespaces() {
    assert_eq!(text(&namespace_dns()), "6ba7b810-9dad-11d1-80b4-00c04fd430c8");
    assert_eq!(text(&namespace_url()), "6ba7b811-9dad-11d1-80b4-00c04fd430c8");
    assert_eq!(text(&namespace_oid()), "6ba7b812-9dad-11d1-80b4-00c04fd430c8");
    assert_eq!(text(&namespace_x500()), "6ba7b814-9dad-11d1-80b4-00c04fd430c8");
}

#[test]
fn v3_reference_values() {
    let u = Uuid::new_v3(namespace_dns(), b"www.widgets.com");
    assert_eq!(text(&u), "3d813cbb-47fb-32ba-91df-831e1593ac29");
    let u = Uuid::new_v3(namespace_dns(), b"python.org");
    assert_eq!(text(&u), "6fa459ea-ee8a-3ca4-894e-db77e160355e");
    assert_eq!(u.version(), Version::Md5);
    assert_eq!(u.variant(), Variant::Rfc);
}

#[test]
fn v5_reference_values() {
    let u = Uuid::new_v5(namespace_dns(), b"www.widgets.com");
    assert_eq!(text(&u), "21f7f8de-8051-5b89-8680-0195ef798b6a");
    let u = Uuid::new_v5(namespace_dns(), b"python.org");
    assert_eq!(text(&u), "886313e1-3b8a-5372-9b90-0c9aee199e5d");
    let u = Uuid::new_v5(namespace_url(), b"python.org");
    assert_eq!(text(&u), "7af94e2b-4dd9-50f0-9c9a-8a48519bdef0");
    let u = Uuid::new_v5(namespace_dns(), b"");
    assert_eq!(text(&u), "4ebd0208-8328-5d69-8c44-ec50939c0967");
    assert_eq!(u.version(), Version::Sha1);
    assert_eq!(u.variant(), Variant::Rfc);
}

#[test]
fn name_based_is_deterministic() {
    let a = Uuid::new_v5(namespace_dns(), b"www.widgets.com");
    let b = Uuid::new_v5(namespace_dns(), b"www.widgets.com");
    assert_eq!(a, b);
    assert_ne!(a, Uuid::new_v5(namespace_url(), b"www.widgets.com"));
    assert_ne!(a, Uuid::new_v5(namespace_dns(), b"www.widgets.org"));
    let c = Uuid::new_v3(namespace_oid(), b"1.3.6.1");
    assert_eq!(c, Uuid::new_v3(namespace_oid(), b"1.3.6.1"));
    assert_ne!(c, Uuid::new_v3(namespace_x500(), b"1.3.6.1"));
}

#[test]
fn from_hash_keeps_all_but_tag_bits() {
    let d: [u8; 20] = [0xFF; 20];
    let u = Uuid::from_sha1_hash(d);
    let b = u.to_bytes();
    assert_eq!(b[6], 0x5F);
    assert_eq!(b[8], 0xBF);
    assert_eq!(u.version(), Version::Sha1);
    let u = Uuid::from_md5_hash([0u8; 16]);
    assert_eq!(text(&u), "00000000-0000-3000-8000-000000000000");
}

#[test]
fn v4_is_tagged() {
    let mut rng = Rng::from_seed([7; 32]);
    for _ in 0..64 {
        let u = Uuid::new_v4_rng(&mut rng);
        assert_eq!(u.variant(), Variant::Rfc);
        assert_eq!(u.version(), Version::Random);
    }
    let u = Uuid::new_v4().unwrap();
    assert_eq!(u.variant(), Variant::Rfc);
    assert_eq!(u.version(), Version::Random);
    assert_ne!(Uuid::new_v4().unwrap(), Uuid::new_v4().unwrap());
    let mut fresh = Rng::new().unwrap();
    assert_eq!(Uuid::new_v4_rng(&mut fresh).version(), Version::Random);
}

#[test]
fn seeded_generators_repeat() {
    let mut a = Rng::from_seed([42; 32]);
    let mut b = Rng::from_seed([42; 32]);
    let mut c = Rng::from_seed([43; 32]);
    let x = Uuid::new_v4_rng(&mut a);
    assert_eq!(x, Uuid::new_v4_rng(&mut b));
    assert_ne!(x, Uuid::new_v4_rng(&mut c));
    assert_ne!(x, Uuid::new_v4_rng(&mut a));
}

#[test]
fn from_random_bytes_tags() {
    let u = Uuid::from_random_bytes([0xFF; 16]);
    assert_eq!(text(&u), "ffffffff-ffff-4fff-bfff-ffffffffffff");
    let u = Uuid::from_random_bytes([0; 16]);
    assert_eq!(text(&u), "00000000-0000-4000-8000-000000000000");
}

#[test]
fn v1_reference_value() {
    let node = [0x9E, 0x6B, 0xDE, 0xCE, 0xD8, 0x46];
    let u = Uuid::new_v1(0x1EC9414C232AB00, 0x33C8, node);
    assert_eq!(text(&u), "c232ab00-9414-11ec-b3c8-9e6bdeced846");
    assert_eq!(u.version(), Version::Gregorian);
    assert_eq!(u.variant(), Variant::Rfc);
    assert_eq!(u.timestamp(), 0x1EC9414C232AB00);
    assert_eq!(u.clock_sequence(), 0x33C8);
    assert_eq!(u.node(), node);
}

#[test]
fn v1_drops_high_bits() {
    let u = Uuid::new_v1(u64::MAX, u16::MAX, [1, 2, 3, 4, 5, 6]);
    assert_eq!(u.timestamp(), 0x0FFF_FFFF_FFFF_FFFF);
    assert_eq!(u.clock_sequence(), 0x3FFF);
    assert_eq!(text(&u), "ffffffff-ffff-1fff-bfff-010203040506");
}

#[test]
fn v6_reference_value() {
    let node = [0x9E, 0x6B, 0xDE, 0xCE, 0xD8, 0x46];
    let u = Uuid::new_v6(0x1EC9414C232AB00, 0x33C8, node);
    assert_eq!(text(&u), "1ec9414c-232a-6b00-b3c8-9e6bdeced846");
    assert_eq!(u.version(), Version::Database);
    assert_eq!(u.variant(), Variant::Rfc);
}

#[test]
fn v7_reference_value() {
    let random = [0x0C, 0xC3, 0x18, 0xC4, 0xDC, 0x0C, 0x0C, 0x07, 0x39, 0x8F];
    let u = Uuid::new_v7(0x017F22E279B0, random);
    assert_eq!(text(&u), "017f22e2-79b0-7cc3-98c4-dc0c0c07398f");
    assert_eq!(u.version(), Version::UnixTime);
    assert_eq!(u.variant(), Variant::Rfc);
}

#[test]
fn v7_rng_keeps_time() {
    let mut rng = Rng::from_seed([1; 32]);
    let u = Uuid::new_v7_rng(0x017F22E279B0, &mut rng);
    assert_eq!(&u.to_bytes()[0..6], &[0x01, 0x7F, 0x22, 0xE2, 0x79, 0xB0]);
    assert_eq!(u.version(), Version::UnixTime);
    assert_eq!(u.variant(), Variant::Rfc);
}

#[test]
fn v8_passes_bits_through() {
    let b = [0xA5u8; 16];
    let u = Uuid::new_v8(b);
    assert_eq!(text(&u), "a5a5a5a5-a5a5-85a5-a5a5-a5a5a5a5a5a5");
    assert_eq!(u.version(), Version::Vendor);
    assert_eq!(u.variant(), Variant::Rfc);
}
