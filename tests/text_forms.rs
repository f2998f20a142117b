use nuuid::{Uuid, ParseUuidError};

const BYTES: [u8; 16] = [
    0x66, 0x2a, 0xa7, 0xc7, 0x75, 0x98, 0x4d, 0x56, 0x8b, 0xcc, 0xa7, 0x2c, 0x30, 0xf9, 0x98, 0xa2,
];

fn hyphenated(u: &Uuid) -> String {
    let mut buf = [0u8; 36];
    u.to_str(&mut buf);
    String::from_utf8(buf.to_vec()).unwrap()
}

fn hyphenated_upper(u: &Uuid) -> String {
    let mut buf = [0u8; 36];
    u.to_str_upper(&mut buf);
    String::from_utf8(buf.to_vec()).unwrap()
}

fn urn(u: &Uuid) -> String {
    let mut buf = [0u8; 45];
    u.to_urn(&mut buf);
    String::from_utf8(buf.to_vec()).unwrap()
}

fn urn_upper(u: &Uuid) -> String {
    let mut buf = [0u8; 45];
    u.to_urn_upper(&mut buf);
    String::from_utf8(buf.to_vec()).unwrap()
}

#[test]
fn four_forms_parse_to_same_bytes() {
    let forms = [
        "662aa7c7-7598-4d56-8bcc-a72c30f998a2",
        "662AA7C775984D568BCCA72C30F998A2",
        "{662aa7c7-7598-4d56-8bcc-a72c30f998a2}",
        "urn:uuid:662aa7c7-7598-4d56-8bcc-a72c30f998a2",
    ];
    for f in forms {
        assert_eq!(Uuid::parse(f).unwrap().to_bytes(), BYTES, "{}", f);
    }
}

#[test]
fn round_trip_through_text() {
    let samples: [[u8; 16]; 4] = [
        BYTES,
        [0; 16],
        [0xFF; 16],
        [0, 1, 2, 3, 4, 5, 6, 7, 8, 9, 10, 11, 12, 13, 14, 15],
    ];
    for b in samples {
        let u = Uuid::from_bytes(b);
        assert_eq!(Uuid::parse(&hyphenated(&u)).unwrap().to_bytes(), b);
        assert_eq!(Uuid::parse(&hyphenated_upper(&u)).unwrap().to_bytes(), b);
        assert_eq!(Uuid::parse(&urn(&u)).unwrap().to_bytes(), b);
        assert_eq!(Uuid::parse(&urn_upper(&u)).unwrap().to_bytes(), b);
    }
}

#[test]
fn formats_exactly() {
    let u = Uuid::from_bytes(BYTES);
    assert_eq!(hyphenated(&u), "662aa7c7-7598-4d56-8bcc-a72c30f998a2");
    assert_eq!(hyphenated_upper(&u), "662AA7C7-7598-4D56-8BCC-A72C30F998A2");
    assert_eq!(urn(&u), "urn:uuid:662aa7c7-7598-4d56-8bcc-a72c30f998a2");
    assert_eq!(urn_upper(&u), "urn:uuid:662AA7C7-7598-4D56-8BCC-A72C30F998A2");
}

#[test]
fn parse_ignores_case() {
    let s = "662aa7c7-7598-4d56-8bcc-a72c30f998a2";
    let a = Uuid::parse(s).unwrap();
    assert_eq!(Uuid::parse(&s.to_uppercase()).unwrap(), a);
    assert_eq!(Uuid::parse(&s.to_lowercase()).unwrap(), a);
    let mixed = "{662aA7c7-7598-4D56-8bCc-A72c30F998a2}";
    assert_eq!(Uuid::parse(mixed).unwrap(), a);
    assert_eq!(Uuid::parse(&mixed.to_uppercase()).unwrap(), a);
    assert_eq!(Uuid::parse(&mixed.to_lowercase()).unwrap(), a);
    let simple = "662aa7c775984d568bcca72c30f998a2";
    assert_eq!(Uuid::parse(&simple.to_uppercase()).unwrap(), a);
}

#[test]
fn urn_prefix_must_be_lowercase() {
    let s = "urn:uuid:662aa7c7-7598-4d56-8bcc-a72c30f998a2";
    assert!(Uuid::parse(s).is_ok());
    assert_eq!(Uuid::parse(&s.to_uppercase()), Err(ParseUuidError));
    assert_eq!(
        Uuid::parse("urn:uuid:662AA7C7-7598-4D56-8BCC-A72C30F998A2").unwrap().to_bytes(),
        BYTES
    );
}

#[test]
fn wrong_lengths_are_rejected() {
    for s in [
        "",
        "662aa7c7",
        "662aa7c7-7598-4d56-8bcc-a72c30f998a",
        "662aa7c7-7598-4d56-8bcc-a72c30f998a2a",
        "662aa7c775984d568bcca72c30f998a",
        "662aa7c775984d568bcca72c30f998a2a",
        "{662aa7c7-7598-4d56-8bcc-a72c30f998a2",
        "urn:uuid:662aa7c7-7598-4d56-8bcc-a72c30f998a22",
    ] {
        assert_eq!(Uuid::parse(s), Err(ParseUuidError), "{}", s);
    }
}

#[test]
fn non_hex_characters_are_rejected() {
    for s in [
        "g62aa7c7-7598-4d56-8bcc-a72c30f998a2",
        "662aa7c7-7598-4d56-8bcc-a72c30f998aZ",
        "662aa7c775984d568bcca72c30f998a ",
        "662aa7c7x7598-4d56-8bcc-a72c30f998a2",
        "{662aa7c7-7598-4d56-8bcc-a72c30f998a2]",
        "(662aa7c7-7598-4d56-8bcc-a72c30f998a2}",
        "urn:uuix:662aa7c7-7598-4d56-8bcc-a72c30f998a2",
        "urn:uuid:662aa7c7-7598-4d56-8bcc-a72c30f998+2",
    ] {
        assert_eq!(Uuid::parse(s), Err(ParseUuidError), "{}", s);
    }
}

#[test]
fn misplaced_hyphens_are_rejected() {
    for s in [
        "662aa7c77-598-4d56-8bcc-a72c30f998a2",
        "662aa7c7-7598-4d568-bcc-a72c30f998a2",
        "-662aa7c77598-4d56-8bcc-a72c30f998a2",
        "662aa7c7-7598-4d56-8bcca72c30f998a2-",
        "662aa7c7-7598-4d56-8bcc-a72c30f998-2",
        "662aa7c7-759-84d568bcca72c30f998a2",
        "662aa7c775984d568bcca72c30f998-2",
        "------------------------------------",
    ] {
        assert_eq!(Uuid::parse(s), Err(ParseUuidError), "{}", s);
    }
}

#[test]
fn non_ascii_is_rejected() {
    assert_eq!(Uuid::parse("662aa7c7-7598-4d56-8bcc-a72c30f998é"), Err(ParseUuidError));
    assert_eq!(Uuid::parse("662aa7c7-7598-4d56-8bcc-a72c30f99é"), Err(ParseUuidError));
}

#[test]
fn from_str_matches_parse() {
    let a: Uuid = "662aa7c7-7598-4d56-8bcc-a72c30f998a2".parse().unwrap();
    assert_eq!(a.to_bytes(), BYTES);
    assert!("not a uuid".parse::<Uuid>().is_err());
}

#[test]
fn nil_formats_as_zeros() {
    let n = Uuid::nil();
    assert!(n.is_nil());
    assert_eq!(hyphenated(&n), "00000000-0000-0000-0000-000000000000");
    assert_eq!(urn(&n), "urn:uuid:00000000-0000-0000-0000-000000000000");
    assert_eq!(hyphenated(&Uuid::max()), "ffffffff-ffff-ffff-ffff-ffffffffffff");
    assert_eq!(hyphenated_upper(&Uuid::max()), "FFFFFFFF-FFFF-FFFF-FFFF-FFFFFFFFFFFF");
}
