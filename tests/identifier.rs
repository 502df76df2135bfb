use dprun::identifier::{Identifier, IdentifierError};

#[test]
fn canonical_text_round_trip() {
    let text = "5BFDB060-06A4-11D0-9C4F-00A0C905425E";
    let id = Identifier::parse_str(text).unwrap();
    assert_eq!(
        id.bytes,
        [0x60, 0xB0, 0xFD, 0x5B, 0xA4, 0x06, 0xD0, 0x11, 0x9C, 0x4F, 0x00, 0xA0, 0xC9, 0x05, 0x42, 0x5E]
    );
    assert_eq!(id.to_text(), text);
}

#[test]
fn lower_case_text_formats_upper_case() {
    let id = Identifier::parse_str("e9eb4143-0fa4-4e0b-beb3-c5222657f9f2").unwrap();
    assert_eq!(id.to_text(), "E9EB4143-0FA4-4E0B-BEB3-C5222657F9F2");
}

#[test]
fn malformed_text_is_a_format_error() {
    assert_eq!(Identifier::parse_str("not an identifier").unwrap_err(), IdentifierError::Format);
    assert_eq!(Identifier::parse_str("").unwrap_err(), IdentifierError::Format);
}

#[test]
fn zero_identifier() {
    let z = Identifier::zero();
    assert!(z.is_zero());
    assert_eq!(z.to_text(), "00000000-0000-0000-0000-000000000000");
    let mut bytes = [0u8; 16];
    bytes[15] = 1;
    assert!(!Identifier { bytes }.is_zero());
    assert_ne!(Identifier { bytes }, z);
}

#[test]
fn random_identifiers_are_not_zero() {
    let a = Identifier::random();
    let b = Identifier::random();
    assert!(!a.is_zero());
    assert_eq!(a.bytes[7] >> 4, 4);
    assert_eq!(a.bytes[8] >> 6, 2);
    assert_eq!(&a.to_text()[14..15], "4");
    assert_ne!(a, b);
}

#[test]
fn read_and_write_bytes() {
    let bytes: Vec<u8> = (0u8..20).collect();
    let id = Identifier::read(&bytes, 2);
    assert_eq!(id.bytes[0], 2);
    assert_eq!(id.bytes[15], 17);
    let mut out = vec![0xEEu8];
    id.write(&mut out);
    assert_eq!(&out[1..], &bytes[2..18]);
}

#[test]
fn debug_text_is_lower_case() {
    let id = Identifier::parse_str("5BFDB060-06A4-11D0-9C4F-00A0C905425E").unwrap();
    assert_eq!(id.to_debug_text(), "5bfdb060-06a4-11d0-9c4f-00a0c905425e");
}

#[test]
fn guid_layout_bytes_format_canonically() {
    let wire = [
        0x60u8, 0xB0, 0xFD, 0x5B, 0xA4, 0x06, 0xD0, 0x11, 0x9C, 0x4F, 0x00, 0xA0, 0xC9, 0x05, 0x42,
        0x5E,
    ];
    let id = Identifier::read(&wire, 0);
    assert_eq!(id.to_text(), "5BFDB060-06A4-11D0-9C4F-00A0C905425E");
    assert_eq!(Identifier::parse_str(&id.to_text()).unwrap(), id);
}
