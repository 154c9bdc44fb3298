//! Protective legacy boot record: the 512-byte record at block 0 that keeps
//! legacy tools from treating a GPT disk as unpartitioned.
use vstd::bytes::{spec_u16_from_le_bytes, spec_u32_from_le_bytes, u16_from_le_bytes, u32_from_le_bytes};
use vstd::prelude::*;

use crate::error::GPTError;

verus! {

/// One of the four 16-byte legacy partition records.
#[derive(Clone, Copy, Debug)]
pub struct MBRPartitionRecord {
    /// Legacy boot flag; not interpreted here.
    pub boot_indicator: u8,
    /// Legacy CHS address of the first block; not interpreted here.
    pub start_head: u8,
    /// Legacy CHS address of the first block; not interpreted here.
    pub start_sector: u8,
    /// Legacy CHS address of the first block; not interpreted here.
    pub start_track: u8,
    /// The record's partition type; `0xEE` marks the GPT-protective record.
    pub os_indicator: u8,
    /// Legacy CHS address of the last block; not interpreted here.
    pub end_head: u8,
    /// Legacy CHS address of the last block; not interpreted here.
    pub end_sector: u8,
    /// Legacy CHS address of the last block; not interpreted here.
    pub end_track: u8,
    /// First logical block of the record, decoded from its little-endian
    /// on-disk form.
    pub start_lba: u32,
    /// Size of the record in logical blocks, decoded from its little-endian
    /// on-disk form.
    pub num_lba: u32,
}

/// The record whose 16 on-disk bytes are `b`.
pub open spec fn spec_record_from_bytes(b: Seq<u8>) -> MBRPartitionRecord
    recommends
        b.len() == 16,
{
    MBRPartitionRecord {
        boot_indicator: b[0],
        start_head: b[1],
        start_sector: b[2],
        start_track: b[3],
        os_indicator: b[4],
        end_head: b[5],
        end_sector: b[6],
        end_track: b[7],
        start_lba: spec_u32_from_le_bytes(b.subrange(8, 12)),
        num_lba: spec_u32_from_le_bytes(b.subrange(12, 16)),
    }
}

/// True when the record is to be considered empty: its type or its size is
/// zero.
pub open spec fn spec_record_is_empty(r: MBRPartitionRecord) -> bool {
    r.os_indicator == 0 || r.num_lba == 0
}

impl MBRPartitionRecord {
    /// Check whether the record is to be considered empty.
    ///
    /// A record is empty when its OS type or its size in blocks is zero.
    pub fn is_empty(&self) -> (r: bool)
        ensures
            r == spec_record_is_empty(*self),
    {
        self.os_indicator == 0 || self.num_lba == 0
    }

    /// Return the first logical block of the record.
    pub fn starting_lba(&self) -> (r: u32)
        ensures
            r == self.start_lba,
    {
        self.start_lba
    }

    /// Return the size of the record in logical blocks.
    pub fn size_in_lba(&self) -> (r: u32)
        ensures
            r == self.num_lba,
    {
        self.num_lba
    }

    /// The block one past the record: its first block plus its size.
    pub fn ending_lba(&self) -> (r: u32)
        requires
            self.start_lba + self.num_lba <= u32::MAX,
        ensures
            r == self.start_lba + self.num_lba,
    {
        self.start_lba + self.num_lba
    }

    /// OS type of a UEFI system partition record.
    pub const UEFI_SYSTEM_OS_TYPE: u8 = 0xef;

    /// OS type of the protective record covering the whole GPT disk.
    pub const GPT_PROTECTIVE_OS_TYPE: u8 = 0xee;
}

/// A decoded 512-byte legacy boot record.
#[derive(Clone, Debug)]
pub struct MasterBootRecord {
    /// x86 boot code, carried through and never executed or interpreted.
    pub bootstrapcode: [u8; 440],
    /// Disk signature written by an OS to tell disks apart.
    pub unique_mbr_signature: [u8; 4],
    /// Two bytes with no assigned meaning.
    pub unknown: [u8; 2],
    /// The four legacy partition records.
    pub partition: [MBRPartitionRecord; 4],
    /// The 2-byte boot signature; `0x55 0xAA` when valid.
    pub signature: [u8; 2],
}

/// True when `m` holds exactly what the 512 bytes beginning `b` encode.
pub open spec fn spec_mbr_matches_bytes(m: MasterBootRecord, b: Seq<u8>) -> bool
    recommends
        b.len() >= 512,
{
    &&& m.bootstrapcode@ == b.subrange(0, 440)
    &&& m.unique_mbr_signature@ == b.subrange(440, 444)
    &&& m.unknown@ == b.subrange(444, 446)
    &&& m.partition[0] == spec_record_from_bytes(b.subrange(446, 462))
    &&& m.partition[1] == spec_record_from_bytes(b.subrange(462, 478))
    &&& m.partition[2] == spec_record_from_bytes(b.subrange(478, 494))
    &&& m.partition[3] == spec_record_from_bytes(b.subrange(494, 510))
    &&& m.signature@ == b.subrange(510, 512)
}

/// The 16-bit value of the boot signature field.
pub open spec fn spec_signature(m: MasterBootRecord) -> u16 {
    spec_u16_from_le_bytes(m.signature@)
}

/// What verifying the slots of `m` against an optional device bound yields:
/// record 0 must carry the GPT-protective OS type with a nonzero size,
/// records 1 to 3 must be empty, and when a bound is given, the protective
/// record must not reach past it.
///
/// Overlap between non-empty legacy records is deliberately not resolved
/// here: only emptiness of the extra slots is enforced.
pub open spec fn spec_verify_partitions(m: MasterBootRecord, last_lba: Option<u32>) -> Result<
    (),
    GPTError,
> {
    if !(m.partition[0].os_indicator == MBRPartitionRecord::GPT_PROTECTIVE_OS_TYPE
        && m.partition[0].num_lba != 0) {
        Err(GPTError::InvalidMbr)
    } else if !(spec_record_is_empty(m.partition[1]) && spec_record_is_empty(m.partition[2])
        && spec_record_is_empty(m.partition[3])) {
        Err(GPTError::InvalidMbr)
    } else if last_lba is Some && m.partition[0].start_lba + m.partition[0].num_lba
        > last_lba->0 {
        Err(GPTError::InvalidMbr)
    } else {
        Ok(())
    }
}

/// What verifying `m` yields: the boot signature must read `0xAA55`, then
/// the slots are checked.
pub open spec fn spec_verify(m: MasterBootRecord, last_lba: Option<u32>) -> Result<(), GPTError> {
    if spec_signature(m) != 0xaa55 {
        Err(GPTError::InvalidData)
    } else {
        spec_verify_partitions(m, last_lba)
    }
}

/// Decode one partition record at offset `off` of `buf`.
fn record_from(buf: &[u8], off: usize) -> (r: MBRPartitionRecord)
    requires
        off + 16 <= buf@.len(),
        off + 16 <= usize::MAX,
    ensures
        r == spec_record_from_bytes(buf@.subrange(off as int, off + 16)),
{
    let start_lba = u32_from_le_bytes(&buf[off + 8..off + 12]);
    let num_lba = u32_from_le_bytes(&buf[off + 12..off + 16]);
    proof {
        assert(buf@.subrange(off + 8, off + 12) =~= buf@.subrange(off as int, off + 16).subrange(
            8,
            12,
        ));
        assert(buf@.subrange(off + 12, off + 16) =~= buf@.subrange(off as int, off + 16).subrange(
            12,
            16,
        ));
    }
    MBRPartitionRecord {
        boot_indicator: buf[off],
        start_head: buf[off + 1],
        start_sector: buf[off + 2],
        start_track: buf[off + 3],
        os_indicator: buf[off + 4],
        end_head: buf[off + 5],
        end_sector: buf[off + 6],
        end_track: buf[off + 7],
        start_lba,
        num_lba,
    }
}

impl MasterBootRecord {
    /// Decode a boot record from the first 512 bytes of `buf`, field by
    /// field at the fixed on-disk offsets.
    pub fn from_buf(buf: &[u8]) -> (r: Result<MasterBootRecord, GPTError>)
        ensures
            buf@.len() < 512 ==> r == Err::<MasterBootRecord, GPTError>(GPTError::UnexpectedEOF),
            buf@.len() >= 512 ==> (r matches Ok(m) && spec_mbr_matches_bytes(m, buf@)),
    {
        if buf.len() < 512 {
            return Err(GPTError::UnexpectedEOF);
        }
        let mut code = [0u8; 440];
        let mut i: usize = 0;
        while i < 440
            invariant
                i <= 440,
                buf@.len() >= 512,
                code@.len() == 440,
                forall|j: int| 0 <= j < i ==> code@[j] == buf@[j],
            decreases 440 - i,
        {
            code[i] = buf[i];
            i = i + 1;
        }
        proof {
            assert(code@ =~= buf@.subrange(0, 440));
        }
        let unique_mbr_signature = [buf[440], buf[441], buf[442], buf[443]];
        let unknown = [buf[444], buf[445]];
        let partition = [
            record_from(buf, 446),
            record_from(buf, 462),
            record_from(buf, 478),
            record_from(buf, 494),
        ];
        let signature = [buf[510], buf[511]];
        let m = MasterBootRecord {
            bootstrapcode: code,
            unique_mbr_signature,
            unknown,
            partition,
            signature,
        };
        proof {
            assert(m.unique_mbr_signature@ =~= buf@.subrange(440, 444));
            assert(m.unknown@ =~= buf@.subrange(444, 446));
            assert(m.signature@ =~= buf@.subrange(510, 512));
        }
        Ok(m)
    }

    /// Return the boot signature as a 16-bit value.
    pub fn signature(&self) -> (r: u16)
        ensures
            r == spec_signature(*self),
    {
        u16_from_le_bytes(self.signature.as_slice())
    }

    /// Verify the boot record: the boot signature must be `0xAA55`, record
    /// 0 must be GPT-protective with a nonzero size, records 1 to 3 must be
    /// empty, and when `last_lba` is given, the protective record must not
    /// reach past it.
    pub fn verify(&self, last_lba: Option<u32>) -> (r: Result<(), GPTError>)
        ensures
            r == spec_verify(*self, last_lba),
    {
        if self.signature() != 0xaa55 {
            return Err(GPTError::InvalidData);
        }
        self.verify_partitions(last_lba)
    }

    /// Verify the partition records alone, without the boot signature.
    pub fn verify_partitions(&self, last_lba: Option<u32>) -> (r: Result<(), GPTError>)
        ensures
            r == spec_verify_partitions(*self, last_lba),
    {
        if self.partition[0].os_indicator != MBRPartitionRecord::GPT_PROTECTIVE_OS_TYPE
            || self.partition[0].size_in_lba() == 0 {
            return Err(GPTError::InvalidMbr);
        }
        if !self.partition[1].is_empty() || !self.partition[2].is_empty()
            || !self.partition[3].is_empty() {
            return Err(GPTError::InvalidMbr);
        }
        let last_lba_p: u64 = self.partition[0].start_lba as u64 + self.partition[0].num_lba
            as u64;
        match last_lba {
            Some(n) => {
                if last_lba_p > n as u64 {
                    return Err(GPTError::InvalidMbr);
                }
            },
            None => {},
        }
        Ok(())
    }
}

/// Verifying against a device bound succeeds exactly when verifying without
/// one succeeds and the protective record ends at or before the bound.
pub proof fn lemma_verify_bound(m: MasterBootRecord, n: u32)
    ensures
        spec_verify(m, Some(n)) is Ok <==> (spec_verify(m, None) is Ok && m.partition[0].start_lba
            + m.partition[0].num_lba <= n),
{
}

} // verus!
