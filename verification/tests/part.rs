use nogpt::error::GPTError;
use nogpt::part::{DefaultGPTTypeGuid, GPTPartHeader};
use nogpt::GUID;

fn entry_bytes(
    type_guid: GUID,
    guid: GUID,
    start_lba: u64,
    end_lba: u64,
    attrs: u64,
    name: &str,
) -> Vec<u8> {
    let mut e = vec![0u8; 128];
    e[0..16].copy_from_slice(&type_guid.as_bytes());
    e[16..32].copy_from_slice(&guid.as_bytes());
    e[32..40].copy_from_slice(&start_lba.to_le_bytes());
    e[40..48].copy_from_slice(&end_lba.to_le_bytes());
    e[48..56].copy_from_slice(&attrs.to_le_bytes());
    let units: Vec<u16> = name.encode_utf16().collect();
    assert!(units.len() <= 36);
    for (i, u) in units.iter().enumerate() {
        e[56 + 2 * i..58 + 2 * i].copy_from_slice(&u.to_le_bytes());
    }
    e
}

#[test]
fn eq_guid_default_partition_type() {
    let lhs = DefaultGPTTypeGuid::ESP;
    let rhs: DefaultGPTTypeGuid = GUID::esp().into();
    assert_eq!(lhs, rhs);
}

#[test]
fn guid_default_partition_type_into_guid() {
    let lhs: GUID = DefaultGPTTypeGuid::Unused.into();
    assert_eq!(lhs, GUID::unused());

    let lhs: GUID = DefaultGPTTypeGuid::ESP.into();
    assert_eq!(lhs, GUID::esp());

    let lhs: GUID = DefaultGPTTypeGuid::LegacyMBR.into();
    assert_eq!(lhs, GUID::legacy_mbr());

    let guid: GUID = GUID::parse("6FCC8240-3985-4840-901F-A05E7FD9B69D").unwrap();
    let lhs: GUID = DefaultGPTTypeGuid::Unknown(guid).into();
    assert_eq!(lhs, guid);
}

#[test]
fn guid_default_partition_type_from_guid() {
    let lhs: DefaultGPTTypeGuid = GUID::unused().into();
    assert_eq!(lhs, DefaultGPTTypeGuid::Unused);

    let lhs: DefaultGPTTypeGuid = GUID::esp().into();
    assert_eq!(lhs, DefaultGPTTypeGuid::ESP);

    let lhs: DefaultGPTTypeGuid = GUID::legacy_mbr().into();
    assert_eq!(lhs, DefaultGPTTypeGuid::LegacyMBR);

    let guid: GUID = GUID::parse("6FCC8240-3985-4840-901F-A05E7FD9B69D").unwrap();
    let lhs: DefaultGPTTypeGuid = guid.into();
    assert_eq!(lhs, DefaultGPTTypeGuid::Unknown(guid));
}

#[test]
fn parse_entry_fields() {
    let pg = GUID::parse("6FCC8240-3985-4840-901F-A05E7FD9B69D").unwrap();
    let e = entry_bytes(GUID::esp(), pg, 2048, 4095, 0b101, "boot");
    let p: GPTPartHeader = GPTPartHeader::parse(&e).unwrap();
    assert_eq!(p.type_guid, DefaultGPTTypeGuid::ESP);
    assert_eq!(p.guid, pg);
    assert_eq!(p.start_lba, 2048);
    assert_eq!(p.end_lba, 4095);
    assert_eq!(p.attrs.bits(), 0b101);
    assert_eq!(p.name_str, "boot");
}

#[test]
fn parse_entry_name_nul_terminated() {
    let e = entry_bytes(
        GUID::esp(),
        GUID::esp(),
        34,
        2081,
        0,
        "EFI System Partition",
    );
    let p: GPTPartHeader = GPTPartHeader::parse(&e).unwrap();
    assert_eq!(p.name_str, "EFI System Partition");
    assert_eq!(p.name_str.len(), 20);
    assert_eq!(p.name[20], 0);
}

#[test]
fn parse_entry_reserved_attr_bit() {
    let e = entry_bytes(GUID::esp(), GUID::esp(), 34, 2081, 1 << 60, "x");
    let r: Result<GPTPartHeader, GPTError> = GPTPartHeader::parse(&e);
    assert_eq!(r.unwrap_err(), GPTError::InvalidData);
}

#[test]
fn parse_entry_full_name_field() {
    let name = "123456789012345678901234567890123456";
    let e = entry_bytes(GUID::esp(), GUID::esp(), 1, 2, 0, name);
    let p: GPTPartHeader = GPTPartHeader::parse(&e).unwrap();
    assert_eq!(p.name_str, name);
}

#[test]
fn attributes_into_u64() {
    let pg = GUID::parse("6FCC8240-3985-4840-901F-A05E7FD9B69D").unwrap();
    let e = entry_bytes(GUID::esp(), pg, 1, 2, 0b110, "data");
    let p: GPTPartHeader = GPTPartHeader::parse(&e).unwrap();
    let bits: u64 = p.attrs.into();
    assert_eq!(bits, 0b110);
}

#[test]
fn truncated_entry_is_eof() {
    let e = entry_bytes(GUID::esp(), GUID::esp(), 1, 2, 0, "x");
    let r: Result<GPTPartHeader, GPTError> = GPTPartHeader::parse(&e[0..127]);
    assert_eq!(r.unwrap_err(), GPTError::UnexpectedEOF);
}
