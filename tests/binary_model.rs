use nuuid::{Uuid, Variant, Version};

#[test]
fn nil_and_max() {
    assert!(Uuid::nil().is_nil());
    assert_eq!(Uuid::nil().to_bytes(), [0u8; 16]);
    assert_eq!(Uuid::max().to_bytes(), [0xFFu8; 16]);
    assert!(!Uuid::max().is_nil());
    let mut b = [0u8; 16];
    b[15] = 1;
    assert!(!Uuid::from_bytes(b).is_nil());
    assert_eq!(Uuid::nil().variant(), Variant::Ncs);
    assert_eq!(Uuid::max().variant(), Variant::Reserved);
    assert_eq!(Uuid::nil().version(), Version::Unused);
    assert_eq!(Uuid::max().version(), Version::Reserved);
}

#[test]
fn bytes_round_trip() {
    let b = [9u8, 8, 7, 6, 5, 4, 3, 2, 1, 0, 11, 22, 33, 44, 55, 66];
    let u = Uuid::from_bytes(b);
    assert_eq!(u.to_bytes(), b);
    assert_eq!(*u.as_bytes(), b);
}

#[test]
fn variant_reads_top_bits_of_byte_8() {
    let cases: [(u8, Variant); 8] = [
        (0x00, Variant::Ncs),
        (0x7F, Variant::Ncs),
        (0x80, Variant::Rfc),
        (0xBF, Variant::Rfc),
        (0xC0, Variant::Microsoft),
        (0xDF, Variant::Microsoft),
        (0xE0, Variant::Reserved),
        (0xFF, Variant::Reserved),
    ];
    for (byte, v) in cases {
        let mut b = [0u8; 16];
        b[8] = byte;
        assert_eq!(Uuid::from_bytes(b).variant(), v, "{:#x}", byte);
    }
}

#[test]
fn version_reads_top_nibble_of_byte_6() {
    let expected = [
        Version::Unused,
        Version::Gregorian,
        Version::Dce,
        Version::Md5,
        Version::Random,
        Version::Sha1,
        Version::Database,
        Version::UnixTime,
        Version::Vendor,
    ];
    for n in 0u8..16 {
        let mut b = [0u8; 16];
        b[6] = (n << 4) | 0x0A;
        let want = if (n as usize) < expected.len() { expected[n as usize] } else { Version::Reserved };
        assert_eq!(Uuid::from_bytes(b).version(), want, "{}", n);
    }
}

#[test]
fn mixed_endian_round_trip() {
    let b = [1u8, 2, 3, 4, 5, 6, 7, 8, 9, 10, 11, 12, 13, 14, 15, 16];
    let u = Uuid::from_bytes(b);
    let me = u.to_bytes_me();
    assert_eq!(me, [4, 3, 2, 1, 6, 5, 8, 7, 9, 10, 11, 12, 13, 14, 15, 16]);
    assert_ne!(me, u.to_bytes());
    assert_eq!(Uuid::from_bytes_me(me), u);
    assert_eq!(u.swap_endian().swap_endian(), u);
    assert_eq!(Uuid::from_bytes_me(b).to_bytes(), me);
}

#[test]
fn mixed_endian_of_palindromic_fields_is_unchanged() {
    let b = [1u8, 2, 2, 1, 7, 7, 9, 9, 0xAA, 0xBB, 1, 2, 3, 4, 5, 6];
    let u = Uuid::from_bytes(b);
    assert_eq!(u.to_bytes_me(), u.to_bytes());
}

#[test]
fn time_fields() {
    // C232AB00-9414-11EC-B3C8-9E6BDECED846
    let u = Uuid::parse("C232AB00-9414-11EC-B3C8-9E6BDECED846").unwrap();
    assert_eq!(u.timestamp(), 0x1EC9414C232AB00);
    assert_eq!(u.clock_sequence(), 0x33C8);
    assert_eq!(u.node(), [0x9E, 0x6B, 0xDE, 0xCE, 0xD8, 0x46]);
    let m = Uuid::max();
    assert_eq!(m.timestamp(), 0x0FFF_FFFF_FFFF_FFFF);
    assert_eq!(m.clock_sequence(), 0x3FFF);
    assert_eq!(m.node(), [0xFF; 6]);
}

#[test]
fn ordering_is_by_bytes() {
    let a = Uuid::from_bytes([0, 0, 0, 0, 0, 0, 0, 0, 0, 0, 0, 0, 0, 0, 0, 1]);
    let b = Uuid::from_bytes([0, 0, 0, 0, 0, 0, 0, 0, 0, 0, 0, 0, 0, 0, 1, 0]);
    assert!(a < b);
    assert!(Uuid::nil() < a);
    assert!(b < Uuid::max());
    assert_ne!(a, b);
    assert_eq!(a, Uuid::from_bytes(a.to_bytes()));
}
