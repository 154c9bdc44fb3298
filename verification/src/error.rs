//! Error taxonomy: device I/O, allocation, format, and integrity failures.
use vstd::prelude::*;

use crate::header::GptHeaderType;
use crate::GPT;

verus! {

/// Unified error type of the crate.
///
/// Low-level codecs report the specific mismatch, keeping the
/// computed-versus-stored values for diagnostics.
#[derive(Clone, Copy, Debug, PartialEq, Eq, Structural)]
pub enum GPTError {
    /// A device read failed.
    Io,
    /// Growing the scratch buffer failed; reported, never aborts.
    TryReserveError,
    /// The declared partition-array size exceeds the fixed buffer and no
    /// growable allocation is possible.
    NoAllocator,
    /// The 8-byte header magic (or the revision) did not match; carries the
    /// value that was found.
    InvalidSignature(u64),
    /// Header CRC32 mismatch: computed value, then stored value.
    InvalidCrcHeader(u32, u32),
    /// Partition-array CRC32 mismatch: computed value, then stored value.
    InvalidCrcParts(u32, u32),
    /// A header was read from an LBA other than its recorded self-LBA;
    /// carries the recorded self-LBA.
    InvalidLba(u64),
    /// The declared partition-array length (in bytes) exceeds the buffer that
    /// was read.
    PartitionTableToShort(u64),
    /// A field held a value outside its permitted set.
    InvalidData,
    /// The buffer ended before a complete record.
    UnexpectedEOF,
    /// No usable GUID partition table was found.
    NoGPT,
    /// A partition lookup named an index at or past the declared entry
    /// count; carries the index.
    IndexOutOfRange(u32),
    /// The protective legacy boot record is not valid.
    InvalidMbr,
    /// Legacy boot record slots overlap.
    OverlappingPartitions,
}

/// The outcome of opening a table when a header copy may have failed:
/// either a plain error, or a usable table carried beside the diagnosis of
/// the copy that failed, so the caller can choose to continue with the
/// surviving copy or treat the damage as fatal.
#[derive(Debug)]
pub enum GPTParseError<T> {
    /// No usable table; the underlying error.
    Error(GPTError),
    /// Exactly one copy was valid: the table built from the surviving copy,
    /// which of the two copies is broken, and why it failed.
    BrokenHeader(GPT<T>, GptHeaderType, GPTError),
}

/// Collapsing a possibly degraded open result into a plain one.
pub trait GptRepair<T>: Sized {
    /// Treat a degraded table as fatal: keep a fully valid table, turn any
    /// failure, degraded or not, into its underlying error.
    fn fail(self) -> (r: Result<GPT<T>, GPTError>);
}

impl<T> GptRepair<T> for Result<GPT<T>, GPTParseError<T>> {
    fn fail(self) -> (r: Result<GPT<T>, GPTError>)
        ensures
            self matches Ok(g) ==> (r matches Ok(g2) && g2 == g),
            self matches Err(GPTParseError::Error(e)) ==> r == Err::<GPT<T>, GPTError>(e),
            self matches Err(GPTParseError::BrokenHeader(g, which, e)) ==> r == Err::<
                GPT<T>,
                GPTError,
            >(e),
    {
        match self {
            Ok(v) => Ok(v),
            Err(GPTParseError::Error(e)) => Err(e),
            Err(GPTParseError::BrokenHeader(_, _, e)) => Err(e),
        }
    }
}

/// Failure modes of parsing canonical GUID text.
#[derive(Clone, Copy, Debug, PartialEq, Eq, Structural)]
pub enum ParseGuidError {
    /// A character in a digit position is not a hexadecimal digit.
    InvalidDigit,
    /// The text is not exactly 36 characters long.
    InvalidLength,
    /// A character in a separator position is not a hyphen.
    InvalidSeparator,
}

} // verus!
