use stratisd_core::error::StratisError;
use stratisd_core::ident::{DevUuid, FilesystemUuid, PoolUuid, StratisUuid};

const TEXT: &str = "550e8400-e29b-41d4-a716-446655440000";

#[test]
fn parse_then_display_gives_back_the_text() {
    let u = PoolUuid::parse_str(TEXT).unwrap();
    assert_eq!(u.to_string(), TEXT);
    assert_eq!(u.0, 0x550e8400_e29b_41d4_a716_446655440000u128);
}

#[test]
fn display_of_a_value() {
    let u = DevUuid(0x0123456789abcdef0011223344556677u128);
    assert_eq!(u.to_string(), "01234567-89ab-cdef-0011-223344556677");
    assert_eq!(*u, 0x0123456789abcdef0011223344556677u128);
}

#[test]
fn malformed_text_is_a_parse_error() {
    assert!(matches!(FilesystemUuid::parse_str("not-a-uuid"), Err(StratisError::Uuid(_))));
    assert!(matches!(
        PoolUuid::parse_str("550e8400-e29b-41d4-a716-44665544000g"),
        Err(StratisError::Uuid(_))
    ));
    assert!(PoolUuid::parse_str("").is_err());
}

#[test]
fn generated_identifiers_differ() {
    let a = PoolUuid::new_v4();
    let b = PoolUuid::new_v4();
    assert_ne!(a, b);
    assert_ne!(DevUuid::new_v4(), DevUuid::new_v4());
}

#[test]
fn nil_is_stable() {
    assert_eq!(PoolUuid::nil(), PoolUuid::nil());
    assert_eq!(PoolUuid::nil().0, 0);
    assert_eq!(DevUuid::nil().to_string(), "00000000-0000-0000-0000-000000000000");
}

#[test]
fn end_to_end_pool_identifiers() {
    let a = PoolUuid::new_v4();
    let b = PoolUuid::new_v4();
    assert_ne!(a, b);
    let text = a.to_string();
    let back = PoolUuid::parse_str(&text).unwrap();
    assert_eq!(back, a);
    // A filesystem identifier of the same value is of another type: only the
    // raw values can be compared.
    let f = FilesystemUuid(a.0);
    assert_eq!(*f, *a);
}

#[test]
fn any_kind_of_identifier() {
    let p = PoolUuid::parse_str(TEXT).unwrap();
    let any = StratisUuid::Pool(p);
    assert_eq!(any.to_string(), TEXT);
    assert_eq!(*any, p.0);
    let d = StratisUuid::Dev(DevUuid(7));
    assert_eq!(*d, 7);
    let f = StratisUuid::Fs(FilesystemUuid(1));
    assert_eq!(f.to_string(), "00000000-0000-0000-0000-000000000001");
}

#[test]
fn other_accepted_spellings() {
    let v = 0x550e8400_e29b_41d4_a716_446655440000u128;
    assert_eq!(PoolUuid::parse_str("550E8400-E29B-41D4-A716-446655440000").unwrap().0, v);
    assert_eq!(PoolUuid::parse_str("550e8400e29b41d4a716446655440000").unwrap().0, v);
    assert_eq!(PoolUuid::parse_str("{550e8400-e29b-41d4-a716-446655440000}").unwrap().0, v);
    assert_eq!(PoolUuid::parse_str("urn:uuid:550e8400-e29b-41d4-a716-446655440000").unwrap().0, v);
    assert_eq!(PoolUuid::parse_str("URN:UUID:550e8400-e29b-41d4-a716-446655440000").unwrap().0, v);
    let upper = PoolUuid::parse_str("550E8400-E29B-41D4-A716-446655440000").unwrap();
    assert_eq!(StratisUuid::Pool(upper).to_string(), TEXT);
}

#[test]
fn malformed_text_of_an_accepted_length() {
    assert!(PoolUuid::parse_str("550e8400-e29b-41d4-a716-44665544000g").is_err());
    assert!(PoolUuid::parse_str("550e8400e-29b-41d4-a716-446655440000").is_err());
    assert!(PoolUuid::parse_str("550e8400e29b41d4a71644665544000z").is_err());
    assert!(PoolUuid::parse_str("(550e8400-e29b-41d4-a716-446655440000)").is_err());
    assert!(PoolUuid::parse_str("urx:uuid:550e8400-e29b-41d4-a716-446655440000").is_err());
}

#[test]
fn generated_identifiers_are_version_four() {
    for _ in 0..16 {
        let v = PoolUuid::new_v4().0;
        assert_ne!(v, 0);
        assert_eq!((v >> 76) & 0xf, 4);
        assert_eq!((v >> 62) & 0x3, 2);
    }
    assert_eq!((FilesystemUuid::new_v4().0 >> 76) & 0xf, 4);
}
