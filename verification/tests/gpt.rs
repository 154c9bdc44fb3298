use nogpt::error::{GPTError, GPTParseError, GptRepair};
use nogpt::header::{GptHeader, GptHeaderType};
use nogpt::part::{DefaultGPTTypeGuid, GPTPartHeader};
use nogpt::{BlockDevice, RamDisk, GPT, GUID};

fn crc32(data: &[u8]) -> u32 {
    crc::Crc::<u32>::new(&crc::CRC_32_ISO_HDLC).checksum(data)
}

fn header_block(my_lba: u64, other_lba: u64, p_entry_lba: u64, p_crc: u32) -> Vec<u8> {
    let mut h = vec![0u8; 512];
    h[0..8].copy_from_slice(&0x5452415020494645u64.to_le_bytes());
    h[8..12].copy_from_slice(&0x00010000u32.to_le_bytes());
    h[12..16].copy_from_slice(&92u32.to_le_bytes());
    h[24..32].copy_from_slice(&my_lba.to_le_bytes());
    h[32..40].copy_from_slice(&other_lba.to_le_bytes());
    h[40..48].copy_from_slice(&34u64.to_le_bytes());
    h[48..56].copy_from_slice(&62u64.to_le_bytes());
    h[56..72].copy_from_slice(
        &GUID::parse("11223344-5566-7788-99AA-BBCCDDEEFF00")
            .unwrap()
            .as_bytes(),
    );
    h[72..80].copy_from_slice(&p_entry_lba.to_le_bytes());
    h[80..84].copy_from_slice(&4u32.to_le_bytes());
    h[84..88].copy_from_slice(&128u32.to_le_bytes());
    h[88..92].copy_from_slice(&p_crc.to_le_bytes());
    let crc = crc32(&h[0..92]);
    h[16..20].copy_from_slice(&crc.to_le_bytes());
    h
}

fn entry_bytes(type_guid: GUID, guid: GUID, start: u64, end: u64, name: &str) -> Vec<u8> {
    let mut e = vec![0u8; 128];
    e[0..16].copy_from_slice(&type_guid.as_bytes());
    e[16..32].copy_from_slice(&guid.as_bytes());
    e[32..40].copy_from_slice(&start.to_le_bytes());
    e[40..48].copy_from_slice(&end.to_le_bytes());
    let units: Vec<u16> = name.encode_utf16().collect();
    for (i, u) in units.iter().enumerate() {
        e[56 + 2 * i..58 + 2 * i].copy_from_slice(&u.to_le_bytes());
    }
    e
}

fn linux_type() -> GUID {
    GUID::parse("0FC63DAF-8483-4772-8E79-3D69D8477DE4").unwrap()
}

fn linux_guid() -> GUID {
    GUID::parse("6FCC8240-3985-4840-901F-A05E7FD9B69D").unwrap()
}

/// A 64-block disk with a protective boot record, the main header at block
/// 1 with its table copy at block 2, and the backup header at block 63 with
/// its table copy at block 30.
fn fixture_image() -> Vec<u8> {
    let mut img = vec![0u8; 64 * 512];
    // protective boot record
    img[446 + 4] = 0xEE;
    img[446 + 8..446 + 12].copy_from_slice(&1u32.to_le_bytes());
    img[446 + 12..446 + 16].copy_from_slice(&63u32.to_le_bytes());
    img[510] = 0x55;
    img[511] = 0xAA;
    // partition-entry array: one Linux partition, three unused slots
    let mut table = vec![0u8; 512];
    table[0..128].copy_from_slice(&entry_bytes(
        linux_type(),
        linux_guid(),
        2048,
        4095,
        "Linux filesystem",
    ));
    let p_crc = crc32(&table);
    img[2 * 512..2 * 512 + 512].copy_from_slice(&table);
    img[30 * 512..30 * 512 + 512].copy_from_slice(&table);
    img[512..1024].copy_from_slice(&header_block(1, 63, 2, p_crc));
    img[63 * 512..64 * 512].copy_from_slice(&header_block(63, 1, 30, p_crc));
    img
}

#[test]
fn open_good_image() {
    let gpt = GPT::open(RamDisk::new(fixture_image())).fail().unwrap();
    assert_eq!(gpt.header.my_lba, 1);
    assert_eq!(gpt.header.other_lba, 63);
    assert_eq!(gpt.header.num_parts, 4);
}

#[test]
fn find_linux_partition() {
    let gpt = GPT::open(RamDisk::new(fixture_image())).fail().unwrap();
    let part: GPTPartHeader = gpt.get_partition(0).unwrap();
    assert_eq!(part.type_guid, DefaultGPTTypeGuid::Unknown(linux_type()));
    assert_eq!(part.guid, linux_guid());
    assert_eq!(part.start_lba, 2048);
    assert_eq!(part.end_lba, 4095);
    assert_eq!(part.name_str, "Linux filesystem");
}

#[test]
fn unused_slot_decodes_as_unused() {
    let gpt = GPT::open(RamDisk::new(fixture_image())).fail().unwrap();
    let part: GPTPartHeader = gpt.get_partition(1).unwrap();
    assert_eq!(part.type_guid, DefaultGPTTypeGuid::Unused);
}

#[test]
fn index_out_of_range() {
    let gpt = GPT::open(RamDisk::new(fixture_image())).fail().unwrap();
    let r: Result<GPTPartHeader, GPTError> = gpt.get_partition(4);
    assert_eq!(r.unwrap_err(), GPTError::IndexOutOfRange(4));
}

#[test]
fn corrupt_main_array_degrades_to_backup() {
    let mut img = fixture_image();
    // corrupt one byte of the main table copy
    img[2 * 512] ^= 0xFF;
    let backup_header = GptHeader::parse(&img[63 * 512..]).unwrap();
    match GPT::open(RamDisk::new(img)) {
        Err(GPTParseError::BrokenHeader(gpt, which, why)) => {
            assert_eq!(which, GptHeaderType::Main);
            assert!(matches!(why, GPTError::InvalidCrcParts(_, _)));
            // the carried table is the one the backup copy describes
            assert_eq!(gpt.header, backup_header);
            let part: GPTPartHeader = gpt.get_partition(0).unwrap();
            assert_eq!(part.guid, linux_guid());
        }
        _ => panic!("expected a degraded result"),
    }
}

#[test]
fn corrupt_backup_array_degrades_to_main() {
    let mut img = fixture_image();
    img[30 * 512 + 7] ^= 0x10;
    let main_header = GptHeader::parse(&img[512..]).unwrap();
    match GPT::open(RamDisk::new(img)) {
        Err(GPTParseError::BrokenHeader(gpt, which, why)) => {
            assert_eq!(which, GptHeaderType::Backup);
            assert!(matches!(why, GPTError::InvalidCrcParts(_, _)));
            assert_eq!(gpt.header, main_header);
        }
        _ => panic!("expected a degraded result"),
    }
}

#[test]
fn both_copies_corrupt_is_terminal() {
    let mut img = fixture_image();
    img[2 * 512] ^= 0xFF;
    img[30 * 512] ^= 0xFF;
    match GPT::open(RamDisk::new(img)) {
        Err(GPTParseError::Error(e)) => assert_eq!(e, GPTError::NoGPT),
        _ => panic!("expected the terminal error"),
    }
}

#[test]
fn degraded_fail_returns_underlying_error() {
    let mut img = fixture_image();
    img[2 * 512] ^= 0xFF;
    let r = GPT::open(RamDisk::new(img)).fail();
    assert!(matches!(r, Err(GPTError::InvalidCrcParts(_, _))));
}

#[test]
fn non_protective_mbr_is_rejected() {
    let mut img = fixture_image();
    img[446 + 4] = 0x83;
    match GPT::open(RamDisk::new(img)) {
        Err(GPTParseError::Error(e)) => assert_eq!(e, GPTError::InvalidMbr),
        _ => panic!("expected no table"),
    }
}

#[test]
fn garbage_header_is_bad_signature() {
    let mut img = fixture_image();
    img[512] = 0;
    match GPT::open(RamDisk::new(img)) {
        Err(GPTParseError::Error(GPTError::InvalidSignature(_))) => {}
        _ => panic!("expected a signature error"),
    }
}

#[test]
fn ram_disk_is_read_only() {
    let disk = RamDisk::new(fixture_image());
    assert_eq!(disk.write(&[0u8; 512], 0, 1), Err(GPTError::Io));
}
