//! The synchronous block-device contract the orchestrator consumes, and a
//! RAM-backed implementation of it.
use vstd::prelude::*;

use crate::error::GPTError;

verus! {

/// A synchronous block device.
///
/// `read` fills `buf` from the device, starting at the byte where block
/// `address` begins; `blocks` says how many whole blocks the caller wants,
/// though a device backed by byte storage may simply fill the buffer. A
/// short read near the end of the device leaves the tail of the buffer
/// unchanged. The buffer's length never changes, and nothing else is
/// promised of the outcome: what was read is checked, never trusted.
pub trait BlockDevice: Sized {
    /// Read from the device into `buf`, starting at block `address`.
    fn read(&self, buf: &mut Vec<u8>, address: u64, blocks: u64) -> (r: Result<(), GPTError>)
        ensures
            final(buf)@.len() == old(buf)@.len(),
    ;

    /// Write `buf` to the device, starting at block `address`. Declared for
    /// completeness of the contract; nothing in this crate calls it.
    fn write(&self, buf: &[u8], address: u64, blocks: u64) -> (r: Result<(), GPTError>);
}

/// A block device over bytes held in memory, chiefly for fixtures and
/// embedded images.
#[derive(Debug)]
pub struct RamDisk {
    /// The device's bytes; block `a` starts at byte `a * 512`.
    pub data: Vec<u8>,
}

impl RamDisk {
    /// A device over the given bytes.
    pub fn new(data: Vec<u8>) -> (d: RamDisk)
        ensures
            d.data == data,
    {
        RamDisk { data }
    }
}

impl BlockDevice for RamDisk {
    /// Copy bytes from block `address` onward into `buf`; positions past
    /// the end of the stored data keep what the buffer held, as a short
    /// read does.
    fn read(&self, buf: &mut Vec<u8>, address: u64, blocks: u64) -> (r: Result<(), GPTError>)
        ensures
            r is Ok,
            forall|i: int|
                0 <= i < final(buf)@.len() ==> final(buf)@[i] == if address * 512 + i
                    < self.data@.len() {
                    self.data@[address * 512 + i]
                } else {
                    old(buf)@[i]
                },
    {
        let len: usize = buf.len();
        let start: u128 = (address as u128) * 512;
        let mut i: usize = 0;
        while i < len
            invariant
                i <= len,
                buf@.len() == len,
                start == (address as u128) * 512,
                forall|j: int|
                    0 <= j < i ==> buf@[j] == if address * 512 + j < self.data@.len() {
                        self.data@[address * 512 + j]
                    } else {
                        old(buf)@[j]
                    },
                forall|j: int| i <= j < len ==> buf@[j] == old(buf)@[j],
            decreases len - i,
        {
            let pos: u128 = start + i as u128;
            if pos < self.data.len() as u128 {
                let b = self.data[pos as usize];
                buf.set(i, b);
            }
            i = i + 1;
        }
        Ok(())
    }

    /// The fixture device is read-only: writing reports an I/O error.
    fn write(&self, buf: &[u8], address: u64, blocks: u64) -> (r: Result<(), GPTError>)
        ensures
            r == Err::<(), GPTError>(GPTError::Io),
    {
        Err(GPTError::Io)
    }
}

} // verus!
