//! GUID codec: 16-byte binary form and canonical text form.
//!
//! On disk a GUID stores its first three fields little-endian and its last
//! eight bytes verbatim; the canonical text form is
//! `XXXXXXXX-XXXX-XXXX-XXXX-XXXXXXXXXXXX` with uppercase hexadecimal digits.
use vstd::bytes::{
    lemma_auto_spec_u16_to_from_le_bytes, lemma_auto_spec_u32_to_from_le_bytes,
    spec_u16_from_le_bytes, spec_u16_to_le_bytes, spec_u32_from_le_bytes, spec_u32_to_le_bytes,
    u16_from_le_bytes, u16_to_le_bytes, u32_from_le_bytes, u32_to_le_bytes,
};
use vstd::arithmetic::div_mod::lemma_fundamental_div_mod_converse;
use vstd::prelude::*;

use crate::endian::{
    lemma_u64_be_bytes_of_bytes, lemma_u64_be_bytes_of_value, spec_u64_from_be_bytes,
    spec_u64_to_be_bytes, u64_from_be_bytes, u64_to_be_bytes,
};
use crate::error::{GPTError, ParseGuidError};
use crate::text::{push_char, str_chars};

verus! {

/// A 16-byte globally unique identifier.
///
/// Equality is exact comparison of all sixteen bytes, which the derived
/// field-wise equality provides, since the byte form below is injective in
/// the fields.
#[derive(Clone, Copy, Debug, PartialEq, Eq, Structural)]
pub struct GUID {
    pub data1: u32,
    pub data2: u16,
    pub data3: u16,
    pub data4: u64,
}

impl View for GUID {
    type V = Seq<u8>;

    /// The 16-byte on-disk form: three little-endian fields, then the last
    /// eight bytes verbatim (kept here as a big-endian 64-bit value).
    open spec fn view(&self) -> Seq<u8> {
        spec_u32_to_le_bytes(self.data1) + spec_u16_to_le_bytes(self.data2)
            + spec_u16_to_le_bytes(self.data3) + spec_u64_to_be_bytes(self.data4)
    }
}

/// The GUID whose 16-byte on-disk form is `s`.
pub open spec fn guid_from_bytes(s: Seq<u8>) -> GUID
    recommends
        s.len() == 16,
{
    GUID {
        data1: spec_u32_from_le_bytes(s.subrange(0, 4)),
        data2: spec_u16_from_le_bytes(s.subrange(4, 6)),
        data3: spec_u16_from_le_bytes(s.subrange(6, 8)),
        data4: spec_u64_from_be_bytes(s.subrange(8, 16)),
    }
}

impl GUID {
    /// Create a GUID from its four data blocks.
    pub fn new(data1: u32, data2: u16, data3: u16, data4: u64) -> (g: GUID)
        ensures
            g == (GUID { data1, data2, data3, data4 }),
    {
        GUID { data1, data2, data3, data4 }
    }

    /// Encode the GUID into its 16-byte on-disk form, as a vector.
    pub fn to_bytes_vec(&self) -> (v: Vec<u8>)
        ensures
            v@ == self@,
            v@.len() == 16,
    {
        let mut v = u32_to_le_bytes(self.data1);
        let mut v2 = u16_to_le_bytes(self.data2);
        let mut v3 = u16_to_le_bytes(self.data3);
        let mut v4 = u64_to_be_bytes(self.data4);
        v.append(&mut v2);
        v.append(&mut v3);
        v.append(&mut v4);
        proof {
            assert(v@ =~= self@);
        }
        v
    }

    /// Encode the GUID into its 16-byte on-disk form.
    pub fn as_bytes(&self) -> (out: [u8; 16])
        ensures
            out@ == self@,
    {
        let v = self.to_bytes_vec();
        let mut out = [0u8; 16];
        let mut i: usize = 0;
        while i < 16
            invariant
                i <= 16,
                v@ == self@,
                v@.len() == 16,
                out@.len() == 16,
                forall|j: int| 0 <= j < i ==> out@[j] == v@[j],
            decreases 16 - i,
        {
            out[i] = v[i];
            i = i + 1;
        }
        proof {
            assert(out@ =~= self@);
        }
        out
    }

    /// Decode a GUID from the first 16 bytes of `b`.
    pub fn from_bytes(b: &[u8]) -> (g: GUID)
        requires
            b@.len() >= 16,
        ensures
            g == guid_from_bytes(b@.subrange(0, 16)),
    {
        let data1 = u32_from_le_bytes(&b[0..4]);
        let data2 = u16_from_le_bytes(&b[4..6]);
        let data3 = u16_from_le_bytes(&b[6..8]);
        let data4 = u64_from_be_bytes(&b[8..16]);
        proof {
            assert(b@.subrange(0, 4) =~= b@.subrange(0, 16).subrange(0, 4));
            assert(b@.subrange(4, 6) =~= b@.subrange(0, 16).subrange(4, 6));
            assert(b@.subrange(6, 8) =~= b@.subrange(0, 16).subrange(6, 8));
            assert(b@.subrange(8, 16) =~= b@.subrange(0, 16).subrange(8, 16));
        }
        GUID { data1, data2, data3, data4 }
    }

    /// Decode a GUID from a buffer that may be too short, as a fallible
    /// conversion.
    pub fn try_from_bytes(b: &[u8]) -> (r: Result<GUID, GPTError>)
        ensures
            b@.len() >= 16 ==> r == Ok::<GUID, GPTError>(guid_from_bytes(b@.subrange(0, 16))),
            b@.len() < 16 ==> r == Err::<GUID, GPTError>(GPTError::NoGPT),
    {
        if b.len() < 16 {
            return Err(GPTError::NoGPT);
        }
        Ok(Self::from_bytes(b))
    }

    /// The all-zero GUID marking an unused entry.
    pub fn unused() -> (g: GUID)
        ensures
            g == spec_unused_guid(),
    {
        GUID { data1: 0, data2: 0, data3: 0, data4: 0 }
    }

    /// The well-known EFI System Partition type GUID.
    pub fn esp() -> (g: GUID)
        ensures
            g == spec_esp_guid(),
    {
        GUID { data1: 0xC12A7328, data2: 0xF81F, data3: 0x11D2, data4: 0xBA4B00A0C93EC93B }
    }

    /// The well-known type GUID of a partition holding a legacy boot record.
    pub fn legacy_mbr() -> (g: GUID)
        ensures
            g == spec_legacy_mbr_guid(),
    {
        GUID { data1: 0x024DEE41, data2: 0x33E7, data3: 0x11D3, data4: 0x9D690008C781F39F }
    }
}

/// The all-zero GUID.
pub open spec fn spec_unused_guid() -> GUID {
    GUID { data1: 0, data2: 0, data3: 0, data4: 0 }
}

/// The EFI System Partition type GUID.
pub open spec fn spec_esp_guid() -> GUID {
    GUID { data1: 0xC12A7328, data2: 0xF81F, data3: 0x11D2, data4: 0xBA4B00A0C93EC93B }
}

/// The legacy-boot-record type GUID.
pub open spec fn spec_legacy_mbr_guid() -> GUID {
    GUID { data1: 0x024DEE41, data2: 0x33E7, data3: 0x11D3, data4: 0x9D690008C781F39F }
}

/// True when `c` is a hexadecimal digit, either case.
pub open spec fn is_hex_digit(c: char) -> bool {
    (48 <= c as u32 && c as u32 <= 57) || (97 <= c as u32 && c as u32 <= 102) || (65 <= c as u32
        && c as u32 <= 70)
}

/// True when `c` is a hexadecimal digit of the canonical (uppercase) form.
pub open spec fn is_upper_hex_digit(c: char) -> bool {
    (48 <= c as u32 && c as u32 <= 57) || (65 <= c as u32 && c as u32 <= 70)
}

/// The value of the hexadecimal digit `c`.
pub open spec fn hex_val(c: char) -> u8
    recommends
        is_hex_digit(c),
{
    if 48 <= c as u32 && c as u32 <= 57 {
        ((c as u32) - 48) as u8
    } else if 97 <= c as u32 && c as u32 <= 102 {
        ((c as u32) - 87) as u8
    } else {
        ((c as u32) - 55) as u8
    }
}

/// The uppercase hexadecimal digit with value `v`.
pub open spec fn hex_char(v: u8) -> char
    recommends
        v < 16,
{
    if v < 10 {
        ((48 + v) as u8) as char
    } else {
        ((55 + v) as u8) as char
    }
}

/// The two uppercase hexadecimal digits of the byte `b`.
pub open spec fn hex2(b: u8) -> Seq<char> {
    seq![hex_char((b / 16) as u8), hex_char((b % 16) as u8)]
}

/// The four uppercase hexadecimal digits of `x`, most significant first.
pub open spec fn hex4(x: u16) -> Seq<char> {
    hex2((x / 256) as u8) + hex2((x % 256) as u8)
}

/// The eight uppercase hexadecimal digits of `x`, most significant first.
pub open spec fn hex8(x: u32) -> Seq<char> {
    hex4((x / 0x10000) as u16) + hex4((x % 0x10000) as u16)
}

/// The canonical text form of `g`: 36 characters, uppercase hexadecimal,
/// hyphens after the 8th, 12th, 16th and 20th digit.
pub open spec fn guid_text(g: GUID) -> Seq<char> {
    hex8(g.data1) + seq!['-'] + hex4(g.data2) + seq!['-'] + hex4(g.data3) + seq!['-'] + hex4(
        (g.data4 / 0x1000000000000) as u16,
    ) + seq!['-'] + hex4(((g.data4 / 0x100000000) % 0x10000) as u16) + hex4(
        ((g.data4 / 0x10000) % 0x10000) as u16,
    ) + hex4((g.data4 % 0x10000) as u16)
}

/// True when index `i` of the canonical form holds a hexadecimal digit
/// rather than a hyphen.
pub open spec fn is_guid_digit_pos(i: int) -> bool {
    0 <= i < 36 && i != 8 && i != 13 && i != 18 && i != 23
}

/// True when the hyphens of the canonical form are in place.
pub open spec fn guid_seps_ok(t: Seq<char>) -> bool {
    t[8] == '-' && t[13] == '-' && t[18] == '-' && t[23] == '-'
}

/// True when every digit position of `t` holds a hexadecimal digit, either
/// case.
pub open spec fn guid_digits_ok(t: Seq<char>) -> bool {
    forall|i: int| is_guid_digit_pos(i) ==> is_hex_digit(#[trigger] t[i])
}

/// The byte whose two hexadecimal digits stand at `i` and `i + 1` of `t`.
pub open spec fn hex_byte_at(t: Seq<char>, i: int) -> u8 {
    (hex_val(t[i]) * 16 + hex_val(t[i + 1])) as u8
}

/// The GUID written in the canonical text `t`.
pub open spec fn guid_from_text(t: Seq<char>) -> GUID
    recommends
        t.len() == 36,
{
    GUID {
        data1: (hex_byte_at(t, 0) * 0x1000000 + hex_byte_at(t, 2) * 0x10000 + hex_byte_at(t, 4)
            * 0x100 + hex_byte_at(t, 6)) as u32,
        data2: (hex_byte_at(t, 9) * 0x100 + hex_byte_at(t, 11)) as u16,
        data3: (hex_byte_at(t, 14) * 0x100 + hex_byte_at(t, 16)) as u16,
        data4: (hex_byte_at(t, 19) * 0x100000000000000 + hex_byte_at(t, 21) * 0x1000000000000
            + hex_byte_at(t, 24) * 0x10000000000 + hex_byte_at(t, 26) * 0x100000000 + hex_byte_at(
            t,
            28,
        ) * 0x1000000 + hex_byte_at(t, 30) * 0x10000 + hex_byte_at(t, 32) * 0x100 + hex_byte_at(
            t,
            34,
        )) as u64,
    }
}

/// What parsing the text `t` yields: the three failure modes are
/// distinguished, checked in the order length, separators, digits.
pub open spec fn spec_parse_guid(t: Seq<char>) -> Result<GUID, ParseGuidError> {
    if t.len() != 36 {
        Err(ParseGuidError::InvalidLength)
    } else if !guid_seps_ok(t) {
        Err(ParseGuidError::InvalidSeparator)
    } else if !guid_digits_ok(t) {
        Err(ParseGuidError::InvalidDigit)
    } else {
        Ok(guid_from_text(t))
    }
}

/// The value of the hexadecimal digit `c`, or `None` when `c` is no such
/// digit.
fn hex_digit_value(c: char) -> (r: Option<u8>)
    ensures
        r is Some <==> is_hex_digit(c),
        r matches Some(v) ==> v == hex_val(c) && v < 16,
{
    let u = c as u32;
    if 48 <= u && u <= 57 {
        Some((u - 48) as u8)
    } else if 97 <= u && u <= 102 {
        Some((u - 87) as u8)
    } else if 65 <= u && u <= 70 {
        Some((u - 55) as u8)
    } else {
        None
    }
}

/// The uppercase hexadecimal digit with value `v`.
fn hex_char_of(v: u8) -> (c: char)
    requires
        v < 16,
    ensures
        c == hex_char(v),
{
    if v < 10 {
        (48 + v) as char
    } else {
        (55 + v) as char
    }
}

/// Append the two hexadecimal digits of `b` to `out`.
fn push_hex2(out: &mut String, b: u8)
    ensures
        final(out)@ == old(out)@ + hex2(b),
{
    push_char(out, hex_char_of(b / 16));
    push_char(out, hex_char_of(b % 16));
    proof {
        assert(out@ =~= old(out)@ + hex2(b));
    }
}

/// Append the four hexadecimal digits of `x` to `out`.
fn push_hex4(out: &mut String, x: u16)
    ensures
        final(out)@ == old(out)@ + hex4(x),
{
    push_hex2(out, (x / 256) as u8);
    push_hex2(out, (x % 256) as u8);
    proof {
        assert(out@ =~= old(out)@ + hex4(x));
    }
}

impl GUID {
    /// Format the GUID in its canonical text form: uppercase hexadecimal,
    /// hyphens at fixed positions, exactly 36 characters.
    pub fn format(&self) -> (r: String)
        ensures
            r@ == guid_text(*self),
    {
        let mut out = String::new();
        push_hex4(&mut out, (self.data1 / 0x10000) as u16);
        push_hex4(&mut out, (self.data1 % 0x10000) as u16);
        push_char(&mut out, '-');
        push_hex4(&mut out, self.data2);
        push_char(&mut out, '-');
        push_hex4(&mut out, self.data3);
        push_char(&mut out, '-');
        push_hex4(&mut out, (self.data4 / 0x1000000000000) as u16);
        push_char(&mut out, '-');
        push_hex4(&mut out, ((self.data4 / 0x100000000) % 0x10000) as u16);
        push_hex4(&mut out, ((self.data4 / 0x10000) % 0x10000) as u16);
        push_hex4(&mut out, (self.data4 % 0x10000) as u16);
        proof {
            assert(out@ =~= guid_text(*self));
        }
        out
    }

    /// Parse a GUID from its canonical text form.
    ///
    /// Positions are counted in characters. The failure modes are
    /// distinguished: wrong length, a missing hyphen, a digit position that
    /// holds no hexadecimal digit.
    pub fn parse(s: &str) -> (r: Result<GUID, ParseGuidError>)
        ensures
            r == spec_parse_guid(s@),
    {
        let v = str_chars(s);
        if v.len() != 36 {
            return Err(ParseGuidError::InvalidLength);
        }
        if !(char_is_hyphen(v[8]) && char_is_hyphen(v[13]) && char_is_hyphen(v[18])
            && char_is_hyphen(v[23])) {
            return Err(ParseGuidError::InvalidSeparator);
        }
        let mut i: usize = 0;
        while i < 36
            invariant
                i <= 36,
                v@ == s@,
                v@.len() == 36,
                guid_seps_ok(v@),
                forall|j: int| 0 <= j < i && is_guid_digit_pos(j) ==> is_hex_digit(#[trigger] v@[j]),
            decreases 36 - i,
        {
            if i != 8 && i != 13 && i != 18 && i != 23 {
                if hex_digit_value(v[i]).is_none() {
                    proof {
                        assert(is_guid_digit_pos(i as int) && !is_hex_digit(v@[i as int]));
                    }
                    return Err(ParseGuidError::InvalidDigit);
                }
            }
            i = i + 1;
        }
        assert(guid_digits_ok(v@));
        let b0 = hex_byte(&v, 0);
        let b2 = hex_byte(&v, 2);
        let b4 = hex_byte(&v, 4);
        let b6 = hex_byte(&v, 6);
        let data1: u32 = (b0 as u32) * 0x1000000 + (b2 as u32) * 0x10000 + (b4 as u32) * 0x100 + (
        b6 as u32);
        let data2: u16 = (hex_byte(&v, 9) as u16) * 0x100 + (hex_byte(&v, 11) as u16);
        let data3: u16 = (hex_byte(&v, 14) as u16) * 0x100 + (hex_byte(&v, 16) as u16);
        let data4: u64 = (hex_byte(&v, 19) as u64) * 0x100000000000000 + (hex_byte(&v, 21) as u64)
            * 0x1000000000000 + (hex_byte(&v, 24) as u64) * 0x10000000000 + (hex_byte(&v, 26)
            as u64) * 0x100000000 + (hex_byte(&v, 28) as u64) * 0x1000000 + (hex_byte(&v, 30)
            as u64) * 0x10000 + (hex_byte(&v, 32) as u64) * 0x100 + (hex_byte(&v, 34) as u64);
        Ok(GUID { data1, data2, data3, data4 })
    }
}

/// True when `c` is the canonical separator.
fn char_is_hyphen(c: char) -> (r: bool)
    ensures
        r == (c == '-'),
{
    c == '-'
}

/// The byte written at digit positions `i` and `i + 1`.
fn hex_byte(v: &Vec<char>, i: usize) -> (r: u8)
    requires
        v@.len() == 36,
        i + 1 < 36,
        is_guid_digit_pos(i as int),
        is_guid_digit_pos(i + 1),
        guid_digits_ok(v@),
    ensures
        r == hex_byte_at(v@, i as int),
        r == hex_val(v@[i as int]) * 16 + hex_val(v@[i + 1]),
{
    let hi = hex_digit_value(v[i]).unwrap();
    let lo = hex_digit_value(v[i + 1]).unwrap();
    hi * 16 + lo
}

/// True when `t` is a canonical GUID text: 36 characters, hyphens in place,
/// uppercase hexadecimal digits everywhere else.
pub open spec fn is_canonical_guid_text(t: Seq<char>) -> bool {
    t.len() == 36 && guid_seps_ok(t) && (forall|i: int|
        is_guid_digit_pos(i) ==> is_upper_hex_digit(#[trigger] t[i]))
}

/// An uppercase hexadecimal digit comes back from its value.
proof fn lemma_hex_digit_roundtrip(c: char)
    requires
        is_upper_hex_digit(c),
    ensures
        is_hex_digit(c),
        hex_val(c) < 16,
        hex_char(hex_val(c)) == c,
{
}

/// A byte written as two uppercase digits comes back as those digits.
proof fn lemma_hex2_roundtrip(a: char, b: char)
    requires
        is_upper_hex_digit(a),
        is_upper_hex_digit(b),
    ensures
        hex_val(a) * 16 + hex_val(b) < 256,
        hex2((hex_val(a) * 16 + hex_val(b)) as u8) == seq![a, b],
{
    lemma_hex_digit_roundtrip(a);
    lemma_hex_digit_roundtrip(b);
    let x = (hex_val(a) * 16 + hex_val(b)) as u8;
    lemma_fundamental_div_mod_converse(x as int, 16, hex_val(a) as int, hex_val(b) as int);
    assert(hex2(x) =~= seq![a, b]);
}

/// Two bytes whose digit pairs are known print as the four digits.
proof fn lemma_hex4_bytes(hi: u8, lo: u8, s1: Seq<char>, s2: Seq<char>)
    requires
        hex2(hi) == s1,
        hex2(lo) == s2,
    ensures
        hex4((hi * 256 + lo) as u16) == s1 + s2,
{
    let x = (hi * 256 + lo) as u16;
    lemma_fundamental_div_mod_converse(x as int, 256, hi as int, lo as int);
    assert(hex4(x) =~= s1 + s2);
}

/// Two 16-bit halves whose digits are known print as the eight digits.
proof fn lemma_hex8_words(hi: u16, lo: u16, s1: Seq<char>, s2: Seq<char>)
    requires
        hex4(hi) == s1,
        hex4(lo) == s2,
    ensures
        hex8((hi * 0x10000 + lo) as u32) == s1 + s2,
{
    let x = (hi * 0x10000 + lo) as u32;
    lemma_fundamental_div_mod_converse(x as int, 0x10000, hi as int, lo as int);
    assert(hex8(x) =~= s1 + s2);
}

/// The first field of a parsed canonical text prints back as its digits.
#[verifier::rlimit(60)]
proof fn lemma_text_data1(t: Seq<char>)
    requires
        is_canonical_guid_text(t),
    ensures
        hex8(guid_from_text(t).data1) == seq![t[0], t[1], t[2], t[3], t[4], t[5], t[6], t[7]],
{
    lemma_text_quad(t, 0);
    lemma_text_quad(t, 4);
    let w0: u16 = (hex_byte_at(t, 0) * 256 + hex_byte_at(t, 2)) as u16;
    let w1: u16 = (hex_byte_at(t, 4) * 256 + hex_byte_at(t, 6)) as u16;
    lemma_hex8_words(w0, w1, hex4(w0), hex4(w1));
    assert(guid_from_text(t).data1 == w0 * 0x10000 + w1);
    assert(hex8(guid_from_text(t).data1) =~= seq![t[0], t[1], t[2], t[3], t[4], t[5], t[6], t[7]]);
}

/// A 16-bit field of a parsed canonical text prints back as its four digits,
/// for the field whose digits begin at `i`.
#[verifier::rlimit(60)]
proof fn lemma_text_quad(t: Seq<char>, i: int)
    requires
        is_canonical_guid_text(t),
        is_guid_digit_pos(i),
        is_guid_digit_pos(i + 1),
        is_guid_digit_pos(i + 2),
        is_guid_digit_pos(i + 3),
    ensures
        hex_byte_at(t, i) * 256 + hex_byte_at(t, i + 2) < 0x10000,
        hex4((hex_byte_at(t, i) * 256 + hex_byte_at(t, i + 2)) as u16) == seq![
            t[i],
            t[i + 1],
            t[i + 2],
            t[i + 3],
        ],
{
    lemma_hex2_roundtrip(t[i], t[i + 1]);
    lemma_hex2_roundtrip(t[i + 2], t[i + 3]);
    let hi = hex_byte_at(t, i);
    let lo = hex_byte_at(t, i + 2);
    lemma_hex4_bytes(hi, lo, hex2(hi), hex2(lo));
    assert(hex4((hi * 256 + lo) as u16) =~= seq![t[i], t[i + 1], t[i + 2], t[i + 3]]);
}

/// The last field of a parsed canonical text splits into the four 16-bit
/// groups that its sixteen digits denote.
#[verifier::rlimit(60)]
proof fn lemma_text_data4(t: Seq<char>)
    requires
        is_canonical_guid_text(t),
    ensures
        (guid_from_text(t).data4 / 0x1000000000000) as u16 == (hex_byte_at(t, 19) * 256
            + hex_byte_at(t, 21)) as u16,
        ((guid_from_text(t).data4 / 0x100000000) % 0x10000) as u16 == (hex_byte_at(t, 24) * 256
            + hex_byte_at(t, 26)) as u16,
        ((guid_from_text(t).data4 / 0x10000) % 0x10000) as u16 == (hex_byte_at(t, 28) * 256
            + hex_byte_at(t, 30)) as u16,
        (guid_from_text(t).data4 % 0x10000) as u16 == (hex_byte_at(t, 32) * 256 + hex_byte_at(
            t,
            34,
        )) as u16,
{
    lemma_hex2_roundtrip(t[19], t[20]);
    lemma_hex2_roundtrip(t[21], t[22]);
    lemma_hex2_roundtrip(t[24], t[25]);
    lemma_hex2_roundtrip(t[26], t[27]);
    lemma_hex2_roundtrip(t[28], t[29]);
    lemma_hex2_roundtrip(t[30], t[31]);
    lemma_hex2_roundtrip(t[32], t[33]);
    lemma_hex2_roundtrip(t[34], t[35]);
    let v0: u16 = (hex_byte_at(t, 19) * 256 + hex_byte_at(t, 21)) as u16;
    let v1: u16 = (hex_byte_at(t, 24) * 256 + hex_byte_at(t, 26)) as u16;
    let v2: u16 = (hex_byte_at(t, 28) * 256 + hex_byte_at(t, 30)) as u16;
    let v3: u16 = (hex_byte_at(t, 32) * 256 + hex_byte_at(t, 34)) as u16;
    let d4 = guid_from_text(t).data4;
    assert(d4 == v0 * 0x1000000000000 + v1 * 0x100000000 + v2 * 0x10000 + v3);
    lemma_fundamental_div_mod_converse(
        d4 as int,
        0x1000000000000,
        v0 as int,
        (v1 * 0x100000000 + v2 * 0x10000 + v3) as int,
    );
    lemma_fundamental_div_mod_converse(
        d4 as int,
        0x100000000,
        (v0 * 0x10000 + v1) as int,
        (v2 * 0x10000 + v3) as int,
    );
    lemma_fundamental_div_mod_converse((d4 / 0x100000000) as int, 0x10000, v0 as int, v1 as int);
    lemma_fundamental_div_mod_converse(
        d4 as int,
        0x10000,
        (v0 * 0x100000000 + v1 * 0x10000 + v2) as int,
        v3 as int,
    );
    lemma_fundamental_div_mod_converse(
        (d4 / 0x10000) as int,
        0x10000,
        (v0 * 0x10000 + v1) as int,
        v2 as int,
    );
}

/// Seven digit groups in their places, with the four hyphens, give the
/// whole canonical text back.
proof fn lemma_text_assemble(
    t: Seq<char>,
    p1: Seq<char>,
    p2: Seq<char>,
    p3: Seq<char>,
    p4: Seq<char>,
    p5: Seq<char>,
    p6: Seq<char>,
    p7: Seq<char>,
)
    requires
        t.len() == 36,
        guid_seps_ok(t),
        p1 == seq![t[0], t[1], t[2], t[3], t[4], t[5], t[6], t[7]],
        p2 == seq![t[9], t[10], t[11], t[12]],
        p3 == seq![t[14], t[15], t[16], t[17]],
        p4 == seq![t[19], t[20], t[21], t[22]],
        p5 == seq![t[24], t[25], t[26], t[27]],
        p6 == seq![t[28], t[29], t[30], t[31]],
        p7 == seq![t[32], t[33], t[34], t[35]],
    ensures
        p1 + seq!['-'] + p2 + seq!['-'] + p3 + seq!['-'] + p4 + seq!['-'] + p5 + p6 + p7 == t,
{
    assert(p1 + seq!['-'] + p2 + seq!['-'] + p3 + seq!['-'] + p4 + seq!['-'] + p5 + p6 + p7
        =~= t);
}

/// Parsing a canonical GUID text succeeds, and formatting the parsed GUID
/// gives the text back: parse followed by format is the identity on
/// canonical (uppercase) GUID strings.
#[verifier::rlimit(100)]
pub proof fn lemma_guid_parse_format(t: Seq<char>)
    requires
        is_canonical_guid_text(t),
    ensures
        spec_parse_guid(t) == Ok::<GUID, ParseGuidError>(guid_from_text(t)),
        guid_text(guid_from_text(t)) == t,
{
    assert forall|i: int| is_guid_digit_pos(i) implies is_hex_digit(#[trigger] t[i]) by {
        lemma_hex_digit_roundtrip(t[i]);
    }
    assert(guid_digits_ok(t));
    let g = guid_from_text(t);
    lemma_text_data1(t);
    lemma_text_quad(t, 9);
    assert(g.data2 == (hex_byte_at(t, 9) * 256 + hex_byte_at(t, 11)) as u16);
    lemma_text_quad(t, 14);
    assert(g.data3 == (hex_byte_at(t, 14) * 256 + hex_byte_at(t, 16)) as u16);
    lemma_text_data4(t);
    lemma_text_quad(t, 19);
    lemma_text_quad(t, 24);
    lemma_text_quad(t, 28);
    lemma_text_quad(t, 32);
    lemma_text_assemble(
        t,
        hex8(g.data1),
        hex4(g.data2),
        hex4(g.data3),
        hex4((g.data4 / 0x1000000000000) as u16),
        hex4(((g.data4 / 0x100000000) % 0x10000) as u16),
        hex4(((g.data4 / 0x10000) % 0x10000) as u16),
        hex4((g.data4 % 0x10000) as u16),
    );
}

/// Decoding 16 bytes and encoding the result gives the bytes back: for every
/// valid 16-byte input, decode followed by encode is the identity.
pub proof fn lemma_guid_decode_encode(s: Seq<u8>)
    requires
        s.len() == 16,
    ensures
        guid_from_bytes(s)@ == s,
{
    lemma_auto_spec_u32_to_from_le_bytes();
    lemma_auto_spec_u16_to_from_le_bytes();
    lemma_u64_be_bytes_of_bytes(s.subrange(8, 16));
    assert(guid_from_bytes(s)@ =~= s);
}

/// Encoding a GUID and decoding the result gives the GUID back.
pub proof fn lemma_guid_encode_decode(g: GUID)
    ensures
        guid_from_bytes(g@) == g,
{
    lemma_auto_spec_u32_to_from_le_bytes();
    lemma_auto_spec_u16_to_from_le_bytes();
    lemma_u64_be_bytes_of_value(g.data4);
    assert(g@.subrange(0, 4) =~= spec_u32_to_le_bytes(g.data1));
    assert(g@.subrange(4, 6) =~= spec_u16_to_le_bytes(g.data2));
    assert(g@.subrange(6, 8) =~= spec_u16_to_le_bytes(g.data3));
    assert(g@.subrange(8, 16) =~= spec_u64_to_be_bytes(g.data4));
}

} // verus!
