//! Discovery and validation of GUID Partition Table (GPT) metadata on a block
//! storage device.
//!
//! The crate locates the protective legacy boot record, reads the primary and
//! backup GPT headers, verifies their checksums and mutual consistency, and
//! decodes individual partition entries on demand. The two independently
//! stored header copies are reconciled into one of three outcomes: a fully
//! valid table, a degraded result that still carries the usable copy, or a
//! terminal failure when neither copy survives.
#![allow(unused_imports)]
use vstd::prelude::*;

pub mod attrs;
pub mod checksum;
pub mod device;
pub mod endian;
pub mod error;
pub mod guid;
pub mod header;
pub mod mbr;
pub mod part;
pub mod text;

pub use device::{BlockDevice, RamDisk};
pub use error::{GPTError, GPTParseError, GptRepair, ParseGuidError};
pub use guid::GUID;

use crate::header::{spec_table_len, spec_validate, GptHeader, GptHeaderType};
use crate::mbr::MasterBootRecord;
use crate::part::{GPTPartHeader, GPTTypeGuid};

verus! {

/// Size in bytes of one logical block; all LBA arithmetic is in units of it.
pub const BLOCK_SIZE: u32 = 512;

/// Default size in bytes reserved for a partition-entry array: what a
/// standard table of 128 entries of 128 bytes occupies.
pub const DEFAULT_PARTTABLE_SIZE: u32 = 16384;

/// Default partition-entry array span in blocks.
pub const DEFAULT_PARTTABLE_BLOCKS: u32 = 32;

/// Allocate a zero-filled buffer of `len` bytes, reporting allocation
/// failure as an error rather than aborting.
fn alloc_zeroed(len: usize) -> (r: Result<Vec<u8>, GPTError>)
    ensures
        r matches Ok(v) ==> v@.len() == len,
        r is Err ==> r == Err::<Vec<u8>, GPTError>(GPTError::TryReserveError),
{
    let mut v: Vec<u8> = Vec::new();
    match v.try_reserve(len) {
        Ok(()) => {},
        Err(_) => {
            return Err(GPTError::TryReserveError);
        },
    }
    while v.len() < len
        invariant
            v@.len() <= len,
        decreases len - v@.len(),
    {
        v.push(0);
    }
    Ok(v)
}

/// Grow the buffer with zero bytes until it holds at least `len` bytes,
/// through a fallible reservation.
fn grow_zeroed(v: &mut Vec<u8>, len: usize) -> (r: Result<(), GPTError>)
    ensures
        r matches Ok(()) ==> final(v)@.len() == (if old(v)@.len() >= len {
            old(v)@.len()
        } else {
            len as nat
        }),
        r is Err ==> r == Err::<(), GPTError>(GPTError::TryReserveError) && final(v)@ == old(
            v,
        )@,
{
    if v.len() >= len {
        return Ok(());
    }
    let add = len - v.len();
    match v.try_reserve(add) {
        Ok(()) => {},
        Err(_) => {
            return Err(GPTError::TryReserveError);
        },
    }
    while v.len() < len
        invariant
            v@.len() <= len,
        decreases len - v@.len(),
    {
        v.push(0);
    }
    Ok(())
}

/// What reconciling the validation outcomes of the two header copies
/// yields: both valid gives the main copy as authoritative; exactly one
/// valid gives a recoverable error carrying the table built from the
/// surviving copy, tagged with which copy is broken and why; both invalid
/// gives the terminal table-unavailable error.
pub open spec fn spec_reconcile<T>(
    block: T,
    m_header: GptHeader,
    m_valid: Result<(), GPTError>,
    b_header: GptHeader,
    b_valid: Result<(), GPTError>,
) -> Result<GPT<T>, GPTParseError<T>> {
    match (m_valid, b_valid) {
        (Ok(()), Ok(())) => Ok(GPT { block, header: m_header }),
        (Ok(()), Err(be)) => Err(
            GPTParseError::BrokenHeader(
                GPT { block, header: m_header },
                GptHeaderType::Backup,
                be,
            ),
        ),
        (Err(me), Ok(())) => Err(
            GPTParseError::BrokenHeader(GPT { block, header: b_header }, GptHeaderType::Main, me),
        ),
        (Err(me), Err(be)) => Err(GPTParseError::Error(GPTError::NoGPT)),
    }
}

/// True when `r` is exactly the reconciliation of two genuinely validated
/// header copies on `block`: a main header validated against the location
/// it was read from and the bytes read for its array, and a backup header
/// validated against the main header's alternate LBA and the bytes read
/// for its own array.
pub open spec fn spec_opened_from<T>(r: Result<GPT<T>, GPTParseError<T>>, block: T) -> bool {
    exists|mh: GptHeader, m_lba: u64, mt: Seq<u8>, bh: GptHeader, bt: Seq<u8>|
        r == #[trigger] spec_reconcile(
            block,
            mh,
            spec_validate(mh, m_lba, mt),
            bh,
            spec_validate(bh, mh.other_lba, bt),
        )
}

/// The byte length of the scratch buffer the orchestrator reads a
/// partition array into: the default span, or the declared table length
/// when that is larger.
pub open spec fn spec_buffer_len(h: GptHeader) -> int {
    if spec_table_len(h) > DEFAULT_PARTTABLE_SIZE as int {
        spec_table_len(h)
    } else {
        DEFAULT_PARTTABLE_SIZE as int
    }
}

/// A discovered and validated GUID partition table: the device it was read
/// from and the header copy that speaks for it.
#[derive(Debug)]
pub struct GPT<T> {
    /// The device the table was read from.
    pub block: T,
    /// The header that was promoted as authoritative.
    pub header: GptHeader,
}

impl<T: BlockDevice> GPT<T> {
    /// Combine the validation outcomes of the two header copies.
    ///
    /// Both valid: the main copy is authoritative. Exactly one valid: a
    /// recoverable error that carries the table built from the surviving
    /// copy, tagged with which copy is broken and why. Both invalid: the
    /// terminal table-unavailable error, and no table is returned.
    pub fn from_outcomes(
        block: T,
        m_header: GptHeader,
        m_valid: Result<(), GPTError>,
        b_header: GptHeader,
        b_valid: Result<(), GPTError>,
    ) -> (r: Result<GPT<T>, GPTParseError<T>>)
        ensures
            r == spec_reconcile(block, m_header, m_valid, b_header, b_valid),
    {
        match (m_valid, b_valid) {
            (Ok(()), Ok(())) => Ok(GPT { block, header: m_header }),
            (Ok(()), Err(be)) => Err(
                GPTParseError::BrokenHeader(
                    GPT { block, header: m_header },
                    GptHeaderType::Backup,
                    be,
                ),
            ),
            (Err(me), Ok(())) => Err(
                GPTParseError::BrokenHeader(
                    GPT { block, header: b_header },
                    GptHeaderType::Main,
                    me,
                ),
            ),
            (Err(_), Err(_)) => Err(GPTParseError::Error(GPTError::NoGPT)),
        }
    }

    /// Open the GUID partition table on `block`.
    ///
    /// Reads and verifies the protective boot record at block 0, then the
    /// main header at the LBA the protective record points at, then the
    /// backup header at the main header's alternate LBA; validates each copy
    /// against its location, its own checksum and its partition-array
    /// checksum; and reconciles the two outcomes. The scratch buffer is
    /// sized to the declared table span through fallible allocation, so a
    /// corrupt, oversized declared size becomes a reported error.
    ///
    /// Whatever the device returned: any table handed out, whole or carried
    /// inside a degraded result, sits on `block` and is the reconciliation
    /// of two genuinely validated header copies; only a plain error shape
    /// carries no table.
    pub fn open(block: T) -> (r: Result<GPT<T>, GPTParseError<T>>)
        ensures
            r matches Ok(g) ==> g.block == block,
            r matches Err(GPTParseError::BrokenHeader(g, which, why)) ==> g.block == block,
            (r is Ok || r matches Err(GPTParseError::BrokenHeader(_, _, _)))
                ==> spec_opened_from(r, block),
    {
        let ghost dev = block;
        let mut buf = match alloc_zeroed(DEFAULT_PARTTABLE_SIZE as usize) {
            Ok(v) => v,
            Err(e) => {
                return Err(GPTParseError::Error(e));
            },
        };
        match block.read(&mut buf, 0, 1) {
            Ok(()) => {},
            Err(e) => {
                return Err(GPTParseError::Error(e));
            },
        }
        let mbr = match MasterBootRecord::from_buf(buf.as_slice()) {
            Ok(m) => m,
            Err(e) => {
                return Err(GPTParseError::Error(e));
            },
        };
        match mbr.verify(None) {
            Ok(()) => {},
            Err(e) => {
                return Err(GPTParseError::Error(e));
            },
        }
        let header_lba: u64 = mbr.partition[0].starting_lba() as u64;
        match block.read(&mut buf, header_lba, 1) {
            Ok(()) => {},
            Err(e) => {
                return Err(GPTParseError::Error(e));
            },
        }
        let m_header = match GptHeader::parse(buf.as_slice()) {
            Ok(h) => h,
            Err(e) => {
                return Err(GPTParseError::Error(e));
            },
        };
        let p_table_size: u64 = m_header.table_bytes();
        if p_table_size > buf.len() as u64 {
            if p_table_size > usize::MAX as u64 {
                return Err(GPTParseError::Error(GPTError::TryReserveError));
            }
            match grow_zeroed(&mut buf, p_table_size as usize) {
                Ok(()) => {},
                Err(e) => {
                    return Err(GPTParseError::Error(e));
                },
            }
        }
        proof {
            assert(p_table_size / (BLOCK_SIZE as u64) + 1 <= u64::MAX) by (nonlinear_arith)
                requires
                    p_table_size <= u64::MAX,
            ;
        }
        let blocks: u64 = if p_table_size > DEFAULT_PARTTABLE_SIZE as u64 {
            p_table_size / (BLOCK_SIZE as u64) + 1
        } else {
            DEFAULT_PARTTABLE_BLOCKS as u64
        };
        match block.read(&mut buf, m_header.p_entry_lba, blocks) {
            Ok(()) => {},
            Err(e) => {
                return Err(GPTParseError::Error(e));
            },
        }
        let ghost mt = buf@;
        let m_valid = m_header.validate(header_lba, buf.as_slice());
        match block.read(&mut buf, m_header.other_lba, 1) {
            Ok(()) => {},
            Err(e) => {
                return Err(GPTParseError::Error(e));
            },
        }
        let b_header = match GptHeader::parse(buf.as_slice()) {
            Ok(h) => h,
            Err(e) => {
                return Err(GPTParseError::Error(e));
            },
        };
        match block.read(&mut buf, b_header.p_entry_lba, blocks) {
            Ok(()) => {},
            Err(e) => {
                return Err(GPTParseError::Error(e));
            },
        }
        let ghost bt = buf@;
        let b_valid = b_header.validate(m_header.other_lba, buf.as_slice());
        let r = Self::from_outcomes(block, m_header, m_valid, b_header, b_valid);
        proof {
            assert(r == spec_reconcile(
                dev,
                m_header,
                spec_validate(m_header, header_lba, mt),
                b_header,
                spec_validate(b_header, m_header.other_lba, bt),
            ));
            assert(spec_opened_from(r, dev));
        }
        r
    }

    /// Look one partition entry up by its index in the table.
    ///
    /// The index is bounds-checked against the header's declared entry
    /// count; the known-valid partition array is then re-read into a fresh
    /// scratch buffer and the one entry decoded, so resident memory stays at
    /// one buffer between lookups.
    pub fn get_partition<PT: GPTTypeGuid>(&self, idx: u32) -> (r: Result<
        GPTPartHeader<PT>,
        GPTError,
    >)
        ensures
            idx >= self.header.num_parts ==> r == Err::<GPTPartHeader<PT>, GPTError>(
                GPTError::IndexOutOfRange(idx),
            ),
            idx < self.header.num_parts && self.header.size_of_p_entry * idx + 128
                > spec_buffer_len(self.header) ==> r is Err,
            r matches Ok(p) ==> p.attrs.bits & !attrs::ATTR_KNOWN_MASK == 0,
    {
        if idx >= self.header.num_parts {
            return Err(GPTError::IndexOutOfRange(idx));
        }
        let mut buf = match alloc_zeroed(DEFAULT_PARTTABLE_SIZE as usize) {
            Ok(v) => v,
            Err(e) => {
                return Err(e);
            },
        };
        let p_table_size: u64 = self.header.table_bytes();
        if p_table_size > buf.len() as u64 {
            if p_table_size > usize::MAX as u64 {
                return Err(GPTError::TryReserveError);
            }
            match grow_zeroed(&mut buf, p_table_size as usize) {
                Ok(()) => {},
                Err(e) => {
                    return Err(e);
                },
            }
        }
        proof {
            assert(buf@.len() == spec_buffer_len(self.header));
            assert(p_table_size / (BLOCK_SIZE as u64) + 1 <= u64::MAX) by (nonlinear_arith)
                requires
                    p_table_size <= u64::MAX,
            ;
        }
        let blocks: u64 = if p_table_size > DEFAULT_PARTTABLE_SIZE as u64 {
            p_table_size / (BLOCK_SIZE as u64) + 1
        } else {
            DEFAULT_PARTTABLE_BLOCKS as u64
        };
        match self.block.read(&mut buf, self.header.p_entry_lba, blocks) {
            Ok(()) => {},
            Err(e) => {
                return Err(e);
            },
        }
        let sz = self.header.size_of_p_entry as u64;
        proof {
            assert(sz * (idx as u64) <= 0xFFFF_FFFFu64 * 0xFFFF_FFFFu64) by (nonlinear_arith)
                requires
                    sz <= 0xFFFF_FFFFu64,
                    idx <= 0xFFFF_FFFFu32,
            ;
        }
        let offset: u64 = sz * (idx as u64);
        if offset > u64::MAX - 128 || offset + 128 > buf.len() as u64 {
            return Err(GPTError::UnexpectedEOF);
        }
        let off = offset as usize;
        GPTPartHeader::<PT>::parse(&buf[off..off + 128])
    }
}

} // verus!

