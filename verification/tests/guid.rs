use nogpt::error::ParseGuidError;
use nogpt::GUID;

#[test]
fn format_guid() {
    assert_eq!(
        GUID::unused().format(),
        "00000000-0000-0000-0000-000000000000"
    );
    assert_eq!(GUID::esp().format(), "C12A7328-F81F-11D2-BA4B-00A0C93EC93B");
    assert_eq!(
        GUID::legacy_mbr().format(),
        "024DEE41-33E7-11D3-9D69-0008C781F39F"
    );
}

#[test]
fn parse_guid() {
    assert_eq!(
        GUID::parse("00000000-0000-0000-0000-000000000000").unwrap(),
        GUID::unused()
    );
    assert_eq!(
        GUID::parse("C12A7328-F81F-11D2-BA4B-00A0C93EC93B").unwrap(),
        GUID::esp()
    );
    assert_eq!(
        GUID::parse("024DEE41-33E7-11D3-9D69-0008C781F39F").unwrap(),
        GUID::legacy_mbr()
    );
}

#[test]
fn guid_to_string_parse() {
    assert_eq!(
        GUID::parse(&GUID::unused().format()).unwrap(),
        GUID::unused()
    );
    assert_eq!(GUID::parse(&GUID::esp().format()).unwrap(), GUID::esp());
    assert_eq!(
        GUID::parse(&GUID::legacy_mbr().format()).unwrap(),
        GUID::legacy_mbr()
    );
}

#[test]
fn guid_to_bytes() {
    assert_eq!(GUID::unused().as_bytes(), [0u8; 16]);
    assert_eq!(
        GUID::esp().as_bytes(),
        [40, 115, 42, 193, 31, 248, 210, 17, 186, 75, 0, 160, 201, 62, 201, 59]
    );
    assert_eq!(
        GUID::legacy_mbr().as_bytes(),
        [65, 238, 77, 2, 231, 51, 211, 17, 157, 105, 0, 8, 199, 129, 243, 159]
    );
}

#[test]
fn test_eq() {
    let lhs = GUID::esp();
    let rhs = GUID::parse("C12A7328-F81F-11D2-BA4B-00A0C93EC93B").unwrap();
    assert_eq!(lhs, rhs);
}

#[test]
fn parse_accepts_lowercase() {
    assert_eq!(
        GUID::parse("c12a7328-f81f-11d2-ba4b-00a0c93ec93b").unwrap(),
        GUID::esp()
    );
}

#[test]
fn parse_wrong_length() {
    assert_eq!(
        GUID::parse("C12A7328-F81F-11D2-BA4B-00A0C93EC93"),
        Err(ParseGuidError::InvalidLength)
    );
    assert_eq!(GUID::parse(""), Err(ParseGuidError::InvalidLength));
}

#[test]
fn parse_wrong_separator() {
    assert_eq!(
        GUID::parse("C12A7328.F81F-11D2-BA4B-00A0C93EC93B"),
        Err(ParseGuidError::InvalidSeparator)
    );
    assert_eq!(
        GUID::parse("C12A7328-F81F-11D2-BA4B-00A0C93EC93-"),
        Err(ParseGuidError::InvalidDigit)
    );
}

#[test]
fn parse_invalid_digit() {
    assert_eq!(
        GUID::parse("G12A7328-F81F-11D2-BA4B-00A0C93EC93B"),
        Err(ParseGuidError::InvalidDigit)
    );
}

#[test]
fn bytes_roundtrip() {
    let g = GUID::parse("6FCC8240-3985-4840-901F-A05E7FD9B69D").unwrap();
    let b = g.as_bytes();
    assert_eq!(GUID::from_bytes(&b), g);
    let h = GUID::new(0x6FCC8240, 0x3985, 0x4840, 0x901FA05E7FD9B69D);
    assert_eq!(h, g);
}
