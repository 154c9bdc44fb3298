use nogpt::error::GPTError;
use nogpt::header::GptHeader;
use nogpt::GUID;

fn crc32(data: &[u8]) -> u32 {
    crc::Crc::<u32>::new(&crc::CRC_32_ISO_HDLC).checksum(data)
}

fn header_bytes(
    my_lba: u64,
    other_lba: u64,
    p_entry_lba: u64,
    num_parts: u32,
    entry_size: u32,
    p_crc: u32,
) -> Vec<u8> {
    let mut h = vec![0u8; 92];
    h[0..8].copy_from_slice(&0x5452415020494645u64.to_le_bytes());
    h[8..12].copy_from_slice(&0x00010000u32.to_le_bytes());
    h[12..16].copy_from_slice(&92u32.to_le_bytes());
    h[24..32].copy_from_slice(&my_lba.to_le_bytes());
    h[32..40].copy_from_slice(&other_lba.to_le_bytes());
    h[40..48].copy_from_slice(&34u64.to_le_bytes());
    h[48..56].copy_from_slice(&2013u64.to_le_bytes());
    h[56..72].copy_from_slice(
        &GUID::parse("11223344-5566-7788-99AA-BBCCDDEEFF00")
            .unwrap()
            .as_bytes(),
    );
    h[72..80].copy_from_slice(&p_entry_lba.to_le_bytes());
    h[80..84].copy_from_slice(&num_parts.to_le_bytes());
    h[84..88].copy_from_slice(&entry_size.to_le_bytes());
    h[88..92].copy_from_slice(&p_crc.to_le_bytes());
    let crc = crc32(&h);
    h[16..20].copy_from_slice(&crc.to_le_bytes());
    h
}

fn sample_table() -> Vec<u8> {
    let mut t = vec![0u8; 512];
    for (i, b) in t.iter_mut().enumerate() {
        *b = (i % 251) as u8;
    }
    t
}

#[test]
fn parse_header_fields() {
    let h = header_bytes(1, 63, 2, 4, 128, 0xDEADBEEF);
    let parsed = GptHeader::parse(&h).unwrap();
    assert_eq!(parsed.size, 92);
    assert_eq!(parsed.my_lba, 1);
    assert_eq!(parsed.other_lba, 63);
    assert_eq!(parsed.first_lba, 34);
    assert_eq!(parsed.last_lba, 2013);
    assert_eq!(
        parsed.guid,
        GUID::parse("11223344-5566-7788-99AA-BBCCDDEEFF00").unwrap()
    );
    assert_eq!(parsed.p_entry_lba, 2);
    assert_eq!(parsed.num_parts, 4);
    assert_eq!(parsed.size_of_p_entry, 128);
    assert_eq!(parsed.p_crc32, 0xDEADBEEF);
}

#[test]
fn parse_rejects_bad_signature() {
    let mut h = header_bytes(1, 63, 2, 4, 128, 0);
    h[0] = b'X';
    let r = GptHeader::parse(&h);
    assert!(matches!(r, Err(GPTError::InvalidSignature(_))));
}

#[test]
fn parse_rejects_bad_revision() {
    let mut h = header_bytes(1, 63, 2, 4, 128, 0);
    h[8..12].copy_from_slice(&0x00020000u32.to_le_bytes());
    assert_eq!(
        GptHeader::parse(&h),
        Err(GPTError::InvalidSignature(0x00020000))
    );
}

#[test]
fn stored_crc_is_reproduced() {
    let table = sample_table();
    let h = header_bytes(1, 63, 2, 4, 128, crc32(&table));
    let parsed = GptHeader::parse(&h).unwrap();
    // recomputing over the header bytes with the checksum field zeroed
    // gives exactly the stored value
    assert_eq!(parsed.calculate_crc(), parsed.crc32);
    assert!(parsed.validate_crc().is_ok());
    assert!(parsed.validate(1, &table).is_ok());
}

#[test]
fn mutated_header_byte_fails_crc() {
    let table = sample_table();
    let mut h = header_bytes(1, 63, 2, 4, 128, crc32(&table));
    // corrupt one byte outside the checksum field
    h[33] ^= 0x40;
    let parsed = GptHeader::parse(&h).unwrap();
    let r = parsed.validate(1, &table);
    assert!(matches!(r, Err(GPTError::InvalidCrcHeader(_, _))));
}

#[test]
fn wrong_location_is_reported_first() {
    let table = sample_table();
    let h = header_bytes(1, 63, 2, 4, 128, crc32(&table));
    let parsed = GptHeader::parse(&h).unwrap();
    // read from LBA 5 though the header records LBA 1
    assert_eq!(parsed.validate(5, &table), Err(GPTError::InvalidLba(1)));
}

#[test]
fn mutated_table_byte_fails_array_crc() {
    let mut table = sample_table();
    let h = header_bytes(1, 63, 2, 4, 128, crc32(&table));
    let parsed = GptHeader::parse(&h).unwrap();
    table[100] ^= 1;
    let r = parsed.validate(1, &table);
    assert!(matches!(r, Err(GPTError::InvalidCrcParts(_, _))));
}

#[test]
fn declared_length_past_buffer() {
    let table = sample_table();
    let h = header_bytes(1, 63, 2, 8, 128, crc32(&table));
    let parsed = GptHeader::parse(&h).unwrap();
    // 8 entries of 128 bytes exceed the 512 bytes that were read
    assert_eq!(
        parsed.validate(1, &table),
        Err(GPTError::PartitionTableToShort(1024))
    );
}

#[test]
fn array_crc_matches_known_check_value() {
    // the classic CRC32 check value: CRC32 of the digits 1 through 9
    let table = b"123456789".to_vec();
    let h = header_bytes(1, 63, 2, 9, 1, 0xCBF43926);
    let parsed = GptHeader::parse(&h).unwrap();
    assert!(parsed.validate_part_crc(&table).is_ok());
}

#[test]
fn truncated_header_is_eof() {
    let h = header_bytes(1, 63, 2, 4, 128, 0);
    assert_eq!(GptHeader::parse(&h[0..91]), Err(GPTError::UnexpectedEOF));
    assert_eq!(GptHeader::parse(&[]), Err(GPTError::UnexpectedEOF));
}
