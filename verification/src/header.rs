//! GPT header codec: fixed-offset field decoding and checksum validation.
use vstd::bytes::{
    spec_u32_from_le_bytes, spec_u32_to_le_bytes, spec_u64_from_le_bytes, spec_u64_to_le_bytes,
    u32_from_le_bytes, u32_to_le_bytes, u64_from_le_bytes, u64_to_le_bytes,
};
use vstd::prelude::*;

use crate::checksum::{crc32, crc32_of};
use crate::error::GPTError;
use crate::guid::{guid_from_bytes, GUID};

verus! {

/// The 8-byte magic at offset 0 of a GPT header, ASCII "EFI PART".
pub const EFI_SIGNATURE: u64 = 0x5452415020494645;

/// The revision this crate understands.
pub const GPT_REV: u32 = 0x00010000;

/// A decoded 92-byte GPT header.
#[derive(Clone, Copy, Debug, PartialEq, Eq, Structural)]
pub struct GptHeader {
    /// Size in bytes of the GPT header on disk. Must be greater than or
    /// equal to 92 and no larger than the logical block size.
    pub size: u32,
    /// CRC32 checksum of the header: computed over the 92 header bytes with
    /// this field set to zero.
    pub crc32: u32,
    /// The LBA that holds this header.
    pub my_lba: u64,
    /// The LBA of the alternate copy of this header.
    pub other_lba: u64,
    /// The first usable logical block that a partition may occupy.
    pub first_lba: u64,
    /// The last usable logical block that a partition may occupy.
    pub last_lba: u64,
    /// GUID that uniquely identifies the disk.
    pub guid: GUID,
    /// The starting LBA of the partition-entry array.
    pub p_entry_lba: u64,
    /// The number of entries in the partition-entry array.
    pub num_parts: u32,
    /// The size in bytes of each partition entry: 128 times a power of two.
    pub size_of_p_entry: u32,
    /// The CRC32 of the partition-entry array, computed over
    /// `num_parts * size_of_p_entry` bytes starting at `p_entry_lba`.
    pub p_crc32: u32,
}

/// The header whose 92 on-disk bytes begin `b`.
pub open spec fn spec_header_from_bytes(b: Seq<u8>) -> GptHeader
    recommends
        b.len() >= 92,
{
    GptHeader {
        size: spec_u32_from_le_bytes(b.subrange(12, 16)),
        crc32: spec_u32_from_le_bytes(b.subrange(16, 20)),
        my_lba: spec_u64_from_le_bytes(b.subrange(24, 32)),
        other_lba: spec_u64_from_le_bytes(b.subrange(32, 40)),
        first_lba: spec_u64_from_le_bytes(b.subrange(40, 48)),
        last_lba: spec_u64_from_le_bytes(b.subrange(48, 56)),
        guid: guid_from_bytes(b.subrange(56, 72)),
        p_entry_lba: spec_u64_from_le_bytes(b.subrange(72, 80)),
        num_parts: spec_u32_from_le_bytes(b.subrange(80, 84)),
        size_of_p_entry: spec_u32_from_le_bytes(b.subrange(84, 88)),
        p_crc32: spec_u32_from_le_bytes(b.subrange(88, 92)),
    }
}

/// The 92 bytes a header's own CRC32 is computed over: the on-disk layout
/// with the checksum field (and the reserved field beside it) zeroed.
pub open spec fn spec_header_crc_bytes(h: GptHeader) -> Seq<u8> {
    spec_u64_to_le_bytes(EFI_SIGNATURE) + spec_u32_to_le_bytes(GPT_REV) + spec_u32_to_le_bytes(
        h.size,
    ) + seq![0u8, 0u8, 0u8, 0u8, 0u8, 0u8, 0u8, 0u8] + spec_u64_to_le_bytes(h.my_lba)
        + spec_u64_to_le_bytes(h.other_lba) + spec_u64_to_le_bytes(h.first_lba)
        + spec_u64_to_le_bytes(h.last_lba) + h.guid@ + spec_u64_to_le_bytes(h.p_entry_lba)
        + spec_u32_to_le_bytes(h.num_parts) + spec_u32_to_le_bytes(h.size_of_p_entry)
        + spec_u32_to_le_bytes(h.p_crc32)
}

/// The length in bytes that the header declares for its partition-entry
/// array.
pub open spec fn spec_table_len(h: GptHeader) -> int {
    h.num_parts * h.size_of_p_entry
}

/// What validating `h` against the LBA it was read from and the bytes of
/// its partition-entry array yields. The checks run in order and stop at
/// the first failure: location, header CRC, declared array length, array
/// CRC.
pub open spec fn spec_validate(h: GptHeader, my_lba: u64, table: Seq<u8>) -> Result<
    (),
    GPTError,
> {
    if h.my_lba != my_lba {
        Err(GPTError::InvalidLba(h.my_lba))
    } else if crc32_of(spec_header_crc_bytes(h)) != h.crc32 {
        Err(GPTError::InvalidCrcHeader(crc32_of(spec_header_crc_bytes(h)), h.crc32))
    } else if spec_table_len(h) > table.len() {
        Err(GPTError::PartitionTableToShort(spec_table_len(h) as u64))
    } else if crc32_of(table.subrange(0, spec_table_len(h))) != h.p_crc32 {
        Err(GPTError::InvalidCrcParts(crc32_of(table.subrange(0, spec_table_len(h))), h.p_crc32))
    } else {
        Ok(())
    }
}

impl GptHeader {
    /// Decode the header from the beginning of `buf`. A truncated buffer is
    /// reported; then the signature and the revision are checked but
    /// nothing else, so that garbage sectors are rejected before any
    /// checksum work.
    pub fn parse(buf: &[u8]) -> (r: Result<GptHeader, GPTError>)
        ensures
            buf@.len() < 92 ==> r == Err::<GptHeader, GPTError>(GPTError::UnexpectedEOF),
            buf@.len() >= 92 ==> ({
                let sig = spec_u64_from_le_bytes(buf@.subrange(0, 8));
                let rev = spec_u32_from_le_bytes(buf@.subrange(8, 12));
                &&& sig != EFI_SIGNATURE ==> r == Err::<GptHeader, GPTError>(
                    GPTError::InvalidSignature(sig),
                )
                &&& sig == EFI_SIGNATURE && rev != GPT_REV ==> r == Err::<GptHeader, GPTError>(
                    GPTError::InvalidSignature(rev as u64),
                )
                &&& sig == EFI_SIGNATURE && rev == GPT_REV ==> r == Ok::<GptHeader, GPTError>(
                    spec_header_from_bytes(buf@),
                )
            }),
    {
        if buf.len() < 92 {
            return Err(GPTError::UnexpectedEOF);
        }
        let sig = u64_from_le_bytes(&buf[0..8]);
        if sig != EFI_SIGNATURE {
            return Err(GPTError::InvalidSignature(sig));
        }
        let rev = u32_from_le_bytes(&buf[8..12]);
        if rev != GPT_REV {
            return Err(GPTError::InvalidSignature(rev as u64));
        }
        let size = u32_from_le_bytes(&buf[12..16]);
        let crc32 = u32_from_le_bytes(&buf[16..20]);
        let my_lba = u64_from_le_bytes(&buf[24..32]);
        let other_lba = u64_from_le_bytes(&buf[32..40]);
        let first_lba = u64_from_le_bytes(&buf[40..48]);
        let last_lba = u64_from_le_bytes(&buf[48..56]);
        let guid = GUID::from_bytes(&buf[56..72]);
        let p_entry_lba = u64_from_le_bytes(&buf[72..80]);
        let num_parts = u32_from_le_bytes(&buf[80..84]);
        let size_of_p_entry = u32_from_le_bytes(&buf[84..88]);
        let p_crc32 = u32_from_le_bytes(&buf[88..92]);
        proof {
            assert(buf@.subrange(56, 72).subrange(0, 16) =~= buf@.subrange(56, 72));
        }
        Ok(
            GptHeader {
                size,
                crc32,
                my_lba,
                other_lba,
                first_lba,
                last_lba,
                guid,
                p_entry_lba,
                num_parts,
                size_of_p_entry,
                p_crc32,
            },
        )
    }

    /// The declared byte length of the partition-entry array.
    pub fn table_bytes(&self) -> (r: u64)
        ensures
            r == spec_table_len(*self),
    {
        let np = self.num_parts as u64;
        let sz = self.size_of_p_entry as u64;
        proof {
            assert(np * sz <= 0xFFFF_FFFFu64 * 0xFFFF_FFFFu64) by (nonlinear_arith)
                requires
                    np <= 0xFFFF_FFFFu64,
                    sz <= 0xFFFF_FFFFu64,
            ;
        }
        np * sz
    }

    /// Compute the header's own CRC32: over the 92 header bytes with the
    /// checksum field zeroed.
    pub fn calculate_crc(&self) -> (r: u32)
        ensures
            r == crc32_of(spec_header_crc_bytes(*self)),
    {
        let mut v = u64_to_le_bytes(EFI_SIGNATURE);
        let mut rev = u32_to_le_bytes(GPT_REV);
        let mut size = u32_to_le_bytes(self.size);
        let mut my_lba = u64_to_le_bytes(self.my_lba);
        let mut other_lba = u64_to_le_bytes(self.other_lba);
        let mut first_lba = u64_to_le_bytes(self.first_lba);
        let mut last_lba = u64_to_le_bytes(self.last_lba);
        let mut guid = self.guid.to_bytes_vec();
        let mut p_entry_lba = u64_to_le_bytes(self.p_entry_lba);
        let mut num_parts = u32_to_le_bytes(self.num_parts);
        let mut size_of_p_entry = u32_to_le_bytes(self.size_of_p_entry);
        let mut p_crc32 = u32_to_le_bytes(self.p_crc32);
        v.append(&mut rev);
        v.append(&mut size);
        let mut zeros: Vec<u8> = Vec::new();
        let mut i: usize = 0;
        while i < 8
            invariant
                i <= 8,
                zeros@.len() == i,
                forall|j: int| 0 <= j < i ==> zeros@[j] == 0u8,
            decreases 8 - i,
        {
            zeros.push(0);
            i = i + 1;
        }
        proof {
            assert(zeros@ =~= seq![0u8, 0u8, 0u8, 0u8, 0u8, 0u8, 0u8, 0u8]);
        }
        v.append(&mut zeros);
        v.append(&mut my_lba);
        v.append(&mut other_lba);
        v.append(&mut first_lba);
        v.append(&mut last_lba);
        v.append(&mut guid);
        v.append(&mut p_entry_lba);
        v.append(&mut num_parts);
        v.append(&mut size_of_p_entry);
        v.append(&mut p_crc32);
        proof {
            assert(v@ =~= spec_header_crc_bytes(*self));
        }
        crc32(v.as_slice())
    }

    /// Verify the header's own checksum.
    pub fn validate_crc(&self) -> (r: Result<(), GPTError>)
        ensures
            r is Ok <==> crc32_of(spec_header_crc_bytes(*self)) == self.crc32,
            r is Err ==> r == Err::<(), GPTError>(
                GPTError::InvalidCrcHeader(crc32_of(spec_header_crc_bytes(*self)), self.crc32),
            ),
    {
        let crc_cal = self.calculate_crc();
        if crc_cal != self.crc32 {
            return Err(GPTError::InvalidCrcHeader(crc_cal, self.crc32));
        }
        Ok(())
    }

    /// Verify the checksum of the partition-entry array, whose bytes begin
    /// `part_table`, failing first when the declared length exceeds what
    /// was read.
    pub fn validate_part_crc(&self, part_table: &[u8]) -> (r: Result<(), GPTError>)
        ensures
            spec_table_len(*self) > part_table@.len() ==> r == Err::<(), GPTError>(
                GPTError::PartitionTableToShort(spec_table_len(*self) as u64),
            ),
            spec_table_len(*self) <= part_table@.len() ==> {
                let computed = crc32_of(part_table@.subrange(0, spec_table_len(*self)));
                &&& (r is Ok <==> computed == self.p_crc32)
                &&& r is Err ==> r == Err::<(), GPTError>(
                    GPTError::InvalidCrcParts(computed, self.p_crc32),
                )
            },
    {
        let len: u64 = self.table_bytes();
        if len > part_table.len() as u64 {
            return Err(GPTError::PartitionTableToShort(len));
        }
        let digest = crc32(&part_table[0..len as usize]);
        if digest != self.p_crc32 {
            return Err(GPTError::InvalidCrcParts(digest, self.p_crc32));
        }
        Ok(())
    }

    /// Validate the header against the LBA it was actually read from and
    /// the bytes of its partition-entry array.
    pub fn validate(&self, my_lba: u64, part_table: &[u8]) -> (r: Result<(), GPTError>)
        ensures
            r == spec_validate(*self, my_lba, part_table@),
    {
        if self.my_lba != my_lba {
            return Err(GPTError::InvalidLba(self.my_lba));
        }
        match self.validate_crc() {
            Err(e) => {
                return Err(e);
            },
            Ok(()) => {},
        }
        match self.validate_part_crc(part_table) {
            Err(e) => {
                return Err(e);
            },
            Ok(()) => {},
        }
        Ok(())
    }
}

/// Validating a header read from any LBA other than its recorded self-LBA
/// fails with the location error, whatever the checksums say.
pub proof fn lemma_validate_location(h: GptHeader, my_lba: u64, table: Seq<u8>)
    requires
        h.my_lba != my_lba,
    ensures
        spec_validate(h, my_lba, table) == Err::<(), GPTError>(GPTError::InvalidLba(h.my_lba)),
{
}

/// A header and array pass validation exactly when the header sits at its
/// recorded LBA, recomputing the CRC32 over the header bytes with the
/// checksum field zeroed reproduces the stored value, and the declared
/// array prefix fits and reproduces the stored array CRC32: any computed
/// checksum that differs from the stored one is rejected.
pub proof fn lemma_validate_checksums(h: GptHeader, my_lba: u64, table: Seq<u8>)
    ensures
        spec_validate(h, my_lba, table) is Ok <==> (h.my_lba == my_lba && crc32_of(
            spec_header_crc_bytes(h),
        ) == h.crc32 && spec_table_len(h) <= table.len() && crc32_of(
            table.subrange(0, spec_table_len(h)),
        ) == h.p_crc32),
{
}

/// Which of the two stored header copies is meant.
#[derive(Clone, Copy, Debug, PartialEq, Eq, Structural)]
pub enum GptHeaderType {
    /// The primary copy near the start of the disk.
    Main,
    /// The alternate copy near the end of the disk.
    Backup,
}

} // verus!
