//! Attribute bits of a partition entry, checked against the reserved-bit
//! mask.
use vstd::prelude::*;

verus! {

/// The partition is required for the platform to function.
pub const ATTR_REQUIRED: u64 = 0b1;

/// Firmware must not produce a block-device protocol for the partition.
pub const ATTR_NO_BLOCK_IO: u64 = 0b10;

/// Legacy firmware may consider the partition bootable.
pub const ATTR_LEGACY_BIOS_BOOTABLE: u64 = 0b100;

/// All attribute bits this crate accepts; the rest are reserved.
pub const ATTR_KNOWN_MASK: u64 = 0b111;

/// The 64-bit attribute mask of a partition entry, restricted on
/// construction to the known bits.
#[derive(Clone, Copy, Debug, PartialEq, Eq, Structural)]
pub struct Attributes {
    /// The raw attribute bits.
    pub bits: u64,
}

impl Attributes {
    /// Accept a raw mask whose set bits are all known; reject any mask with
    /// a reserved bit set.
    pub fn from_bits(value: u64) -> (r: Option<Attributes>)
        ensures
            r is Some <==> value & !ATTR_KNOWN_MASK == 0,
            r matches Some(a) ==> a.bits == value,
    {
        if value & !ATTR_KNOWN_MASK == 0 {
            Some(Attributes { bits: value })
        } else {
            None
        }
    }

    /// The raw attribute bits.
    pub fn bits(&self) -> (r: u64)
        ensures
            r == self.bits,
    {
        self.bits
    }
}

impl From<Attributes> for u64 {
    /// The raw attribute bits.
    fn from(attr: Attributes) -> (r: u64) {
        attr.bits
    }
}

impl vstd::std_specs::convert::FromSpecImpl<Attributes> for u64 {
    open spec fn obeys_from_spec() -> bool {
        true
    }

    open spec fn from_spec(a: Attributes) -> u64 {
        a.bits
    }
}

} // verus!
