//! Partition-entry codec: one fixed-size on-disk record decoded into a
//! typed entry, with a pluggable partition-type representation.
use vstd::bytes::{spec_u16_from_le_bytes, spec_u64_from_le_bytes, u16_from_le_bytes, u64_from_le_bytes};
use vstd::prelude::*;

use crate::attrs::{Attributes, ATTR_KNOWN_MASK};
use crate::error::GPTError;
use crate::guid::{
    guid_from_bytes, spec_esp_guid, spec_legacy_mbr_guid, spec_unused_guid, GUID,
};
use crate::text::{utf16_lossy, utf16_lossy_of};

verus! {

/// A partition-type representation.
///
/// The type GUID of an entry is polymorphic: any type that offers the
/// two-way conversion with the 16-byte on-disk form may stand in for the
/// default tagged representation.
pub trait GPTTypeGuid: Sized {
    /// What decoding 16 bytes yields, when it yields anything.
    spec fn spec_decode(b: Seq<u8>) -> Option<Self>;

    /// What encoding a value yields, when it yields anything.
    spec fn spec_encode(self) -> Option<Seq<u8>>;

    /// Decode a value from its 16-byte on-disk form.
    fn try_from_bytes(b: &[u8]) -> (r: Result<Self, GPTError>)
        requires
            b@.len() == 16,
        ensures
            r matches Ok(t) ==> Self::spec_decode(b@) == Some(t),
            r is Err ==> Self::spec_decode(b@) is None,
    ;

    /// Encode a value into its 16-byte on-disk form.
    fn try_to_bytes(&self) -> (r: Result<[u8; 16], GPTError>)
        ensures
            r matches Ok(out) ==> Self::spec_encode(*self) == Some(out@),
            r is Err ==> Self::spec_encode(*self) is None,
    ;
}

/// The default partition-type representation: the well-known types as
/// variants, any other type GUID carried verbatim.
#[derive(Clone, Copy, Debug, PartialEq, Eq, Structural)]
pub enum DefaultGPTTypeGuid {
    /// An unused entry (the all-zero type GUID).
    Unused,
    /// An EFI System Partition.
    ESP,
    /// A partition holding a legacy boot record.
    LegacyMBR,
    /// Any other partition type.
    Unknown(GUID),
}

/// The tagged representation of the type GUID `g`.
pub open spec fn spec_default_type_of_guid(g: GUID) -> DefaultGPTTypeGuid {
    if g == spec_unused_guid() {
        DefaultGPTTypeGuid::Unused
    } else if g == spec_esp_guid() {
        DefaultGPTTypeGuid::ESP
    } else if g == spec_legacy_mbr_guid() {
        DefaultGPTTypeGuid::LegacyMBR
    } else {
        DefaultGPTTypeGuid::Unknown(g)
    }
}

/// The type GUID that the tagged representation `t` stands for.
pub open spec fn spec_guid_of_default_type(t: DefaultGPTTypeGuid) -> GUID {
    match t {
        DefaultGPTTypeGuid::Unused => spec_unused_guid(),
        DefaultGPTTypeGuid::ESP => spec_esp_guid(),
        DefaultGPTTypeGuid::LegacyMBR => spec_legacy_mbr_guid(),
        DefaultGPTTypeGuid::Unknown(g) => g,
    }
}

impl From<GUID> for DefaultGPTTypeGuid {
    /// Tag a type GUID with its well-known meaning, if it has one.
    fn from(g: GUID) -> (r: DefaultGPTTypeGuid) {
        if g == GUID::unused() {
            DefaultGPTTypeGuid::Unused
        } else if g == GUID::esp() {
            DefaultGPTTypeGuid::ESP
        } else if g == GUID::legacy_mbr() {
            DefaultGPTTypeGuid::LegacyMBR
        } else {
            DefaultGPTTypeGuid::Unknown(g)
        }
    }
}

impl vstd::std_specs::convert::FromSpecImpl<GUID> for DefaultGPTTypeGuid {
    open spec fn obeys_from_spec() -> bool {
        true
    }

    open spec fn from_spec(g: GUID) -> DefaultGPTTypeGuid {
        spec_default_type_of_guid(g)
    }
}

impl From<DefaultGPTTypeGuid> for GUID {
    /// The type GUID that a tagged representation stands for.
    fn from(t: DefaultGPTTypeGuid) -> (r: GUID) {
        match t {
            DefaultGPTTypeGuid::Unused => GUID::unused(),
            DefaultGPTTypeGuid::ESP => GUID::esp(),
            DefaultGPTTypeGuid::LegacyMBR => GUID::legacy_mbr(),
            DefaultGPTTypeGuid::Unknown(g) => g,
        }
    }
}

impl vstd::std_specs::convert::FromSpecImpl<DefaultGPTTypeGuid> for GUID {
    open spec fn obeys_from_spec() -> bool {
        true
    }

    open spec fn from_spec(t: DefaultGPTTypeGuid) -> GUID {
        spec_guid_of_default_type(t)
    }
}

impl GPTTypeGuid for DefaultGPTTypeGuid {
    open spec fn spec_decode(b: Seq<u8>) -> Option<DefaultGPTTypeGuid> {
        Some(spec_default_type_of_guid(guid_from_bytes(b)))
    }

    open spec fn spec_encode(self) -> Option<Seq<u8>> {
        Some(spec_guid_of_default_type(self)@)
    }

    fn try_from_bytes(b: &[u8]) -> (r: Result<DefaultGPTTypeGuid, GPTError>) {
        let g = GUID::from_bytes(b);
        proof {
            assert(b@.subrange(0, 16) =~= b@);
        }
        Ok(DefaultGPTTypeGuid::from(g))
    }

    fn try_to_bytes(&self) -> (r: Result<[u8; 16], GPTError>) {
        Ok(GUID::from(*self).as_bytes())
    }
}

impl GPTTypeGuid for GUID {
    open spec fn spec_decode(b: Seq<u8>) -> Option<GUID> {
        Some(guid_from_bytes(b))
    }

    open spec fn spec_encode(self) -> Option<Seq<u8>> {
        Some(self@)
    }

    fn try_from_bytes(b: &[u8]) -> (r: Result<GUID, GPTError>) {
        let g = GUID::from_bytes(b);
        proof {
            assert(b@.subrange(0, 16) =~= b@);
        }
        Ok(g)
    }

    fn try_to_bytes(&self) -> (r: Result<[u8; 16], GPTError>) {
        Ok(self.as_bytes())
    }
}

/// The 36 UTF-16 code units of the name field of the entry whose on-disk
/// bytes begin `b`.
pub open spec fn spec_name_units(b: Seq<u8>) -> Seq<u16> {
    Seq::new(36, |i: int| spec_u16_from_le_bytes(b.subrange(56 + 2 * i, 58 + 2 * i)))
}

/// The index of the first NUL unit at or after `i`, or the length when
/// there is none.
pub open spec fn spec_name_len(u: Seq<u16>, i: int) -> int
    recommends
        0 <= i <= u.len(),
    decreases u.len() - i,
{
    if i < 0 || i >= u.len() {
        i
    } else if u[i] == 0 {
        i
    } else {
        spec_name_len(u, i + 1)
    }
}

/// A run of non-NUL units ending at a NUL (or at the end) pins the first
/// NUL down.
proof fn lemma_name_len(u: Seq<u16>, i: int, l: int)
    requires
        0 <= i <= l <= u.len(),
        forall|j: int| i <= j < l ==> u[j] != 0,
        l == u.len() || u[l] == 0,
    ensures
        spec_name_len(u, i) == l,
    decreases l - i,
{
    if i < l {
        lemma_name_len(u, i + 1, l);
    }
}

/// A decoded partition entry.
#[derive(Debug)]
pub struct GPTPartHeader<T = DefaultGPTTypeGuid> where T: GPTTypeGuid {
    /// The purpose and type of the partition; all-zero means the slot is
    /// unused.
    pub type_guid: T,
    /// GUID unique to this partition.
    pub guid: GUID,
    /// First logical block of the partition.
    pub start_lba: u64,
    /// Last logical block of the partition, inclusive.
    pub end_lba: u64,
    /// Attribute bits, checked against the reserved-bit mask.
    pub attrs: Attributes,
    /// The name as stored: 36 UTF-16 code units, NUL-terminated or padded.
    pub name: [u16; 36],
    /// The name up to its first NUL, projected to UTF-8.
    pub name_str: String,
}

impl<T: GPTTypeGuid> GPTPartHeader<T> {
    /// Decode one partition entry from the beginning of `buf`.
    ///
    /// The failure modes are a buffer shorter than one entry, the type
    /// representation rejecting the type GUID, and an attribute mask with a
    /// reserved bit set.
    pub fn parse(buf: &[u8]) -> (r: Result<GPTPartHeader<T>, GPTError>)
        ensures
            buf@.len() < 128 ==> r == Err::<GPTPartHeader<T>, GPTError>(GPTError::UnexpectedEOF),
            buf@.len() >= 128 ==> ({
                let tb = buf@.subrange(0, 16);
                let raw_attrs = spec_u64_from_le_bytes(buf@.subrange(48, 56));
                let units = spec_name_units(buf@);
                &&& T::spec_decode(tb) is None ==> r is Err
                &&& T::spec_decode(tb) is Some && raw_attrs & !ATTR_KNOWN_MASK != 0 ==> r
                    == Err::<GPTPartHeader<T>, GPTError>(GPTError::InvalidData)
                &&& T::spec_decode(tb) is Some && raw_attrs & !ATTR_KNOWN_MASK == 0 ==> (r
                    matches Ok(p) && p.type_guid == T::spec_decode(tb)->0 && p.guid
                    == guid_from_bytes(buf@.subrange(16, 32)) && p.start_lba
                    == spec_u64_from_le_bytes(buf@.subrange(32, 40)) && p.end_lba
                    == spec_u64_from_le_bytes(buf@.subrange(40, 48)) && p.attrs.bits == raw_attrs
                    && p.name@ == units && p.name_str@ == utf16_lossy_of(
                    units.take(spec_name_len(units, 0)),
                ))
            }),
            r matches Ok(p) ==> ({
                let cut = spec_name_units(buf@).take(
                    spec_name_len(spec_name_units(buf@), 0),
                );
                (forall|i: int| 0 <= i < cut.len() ==> cut[i] < 0x80) ==> (p.name_str@.len()
                    == cut.len() && (forall|i: int|
                    0 <= i < cut.len() ==> p.name_str@[i] as u32 == cut[i] as u32))
            }),
    {
        if buf.len() < 128 {
            return Err(GPTError::UnexpectedEOF);
        }
        let type_guid: T = match T::try_from_bytes(&buf[0..16]) {
            Ok(t) => t,
            Err(e) => {
                return Err(e);
            },
        };
        let guid = GUID::from_bytes(&buf[16..32]);
        proof {
            assert(buf@.subrange(16, 32).subrange(0, 16) =~= buf@.subrange(16, 32));
        }
        let start_lba = u64_from_le_bytes(&buf[32..40]);
        let end_lba = u64_from_le_bytes(&buf[40..48]);
        let raw_attrs = u64_from_le_bytes(&buf[48..56]);
        let attrs = match Attributes::from_bits(raw_attrs) {
            Some(a) => a,
            None => {
                return Err(GPTError::InvalidData);
            },
        };
        let mut name = [0u16; 36];
        let mut x: usize = 0;
        while x < 36
            invariant
                x <= 36,
                buf@.len() >= 128,
                name@.len() == 36,
                forall|j: int|
                    0 <= j < x ==> name@[j] == spec_u16_from_le_bytes(
                        buf@.subrange(56 + 2 * j, 58 + 2 * j),
                    ),
            decreases 36 - x,
        {
            name[x] = u16_from_le_bytes(&buf[56 + 2 * x..58 + 2 * x]);
            x = x + 1;
        }
        proof {
            assert(name@ =~= spec_name_units(buf@));
        }
        let mut len: usize = 0;
        while len < 36 && name[len] != 0
            invariant
                0 <= len <= 36,
                name@.len() == 36,
                forall|j: int| 0 <= j < len ==> name@[j] != 0,
            decreases 36 - len,
        {
            len = len + 1;
        }
        proof {
            lemma_name_len(name@, 0, len as int);
            assert(name@.subrange(0, len as int) =~= name@.take(spec_name_len(name@, 0)));
        }
        let name_str = utf16_lossy(&name[0..len]);
        Ok(GPTPartHeader { type_guid, guid, start_lba, end_lba, attrs, name, name_str })
    }
}

} // verus!
