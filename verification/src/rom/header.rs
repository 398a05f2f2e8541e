//! The 80-byte cartridge header: decoding, field validation, and the
//! advisory logo/checksum record.

use vstd::prelude::*;
use vstd::string::StringExecFns;
use vstd::utf8::{decode_utf8, valid_utf8};

use crate::rom::cartridge_type::{cartridge_type_error_rep, cartridge_type_of, CartridgeType};
use crate::rom::parse::{Parse, ParseResult};
use crate::text::{decimal_rep, decimal_string, hex_byte_rep, hex_byte_string};

verus! {

pub const HEADER_BYTES: usize = 0x50;

pub const LOGO_ADDRESS_START: usize = 0x04;

pub const LOGO_ADDRESS_END: usize = 0x33;

pub const TITLE_ADDRESS_START: usize = 0x34;

pub const TITLE_ADDRESS_END: usize = 0x43;

pub const CARTRIDGE_TYPE_ADDRESS: usize = 0x47;

pub const ROM_BANKS_ADDRESS: usize = 0x48;

pub const RAM_BANKS_ADDRESS: usize = 0x49;

pub const VERSION_ADDRESS: usize = 0x4C;

pub const HEADER_CHECKSUM_ADDRESS: usize = 0x4D;

pub const GLOBAL_CHECKSUM_ADDRESS_START: usize = 0x4E;

pub const GLOBAL_CHECKSUM_ADDRESS_END: usize = 0x4F;

/// The fixed 48-byte bitmap every licensed cartridge carries at offsets
/// 0x04..=0x33 of its header; the boot sequence displays and checks it.
pub open spec fn logo() -> Seq<u8> {
    seq![
        0xCEu8, 0xED, 0x66, 0x66, 0xCC, 0x0D, 0x00, 0x0B, 0x03, 0x73, 0x00, 0x83, 0x00, 0x0C,
        0x00, 0x0D, 0x00, 0x08, 0x11, 0x1F, 0x88, 0x89, 0x00, 0x0E, 0xDC, 0xCC, 0x6E, 0xE6, 0xDD,
        0xDD, 0xD9, 0x99, 0xBB, 0xBB, 0x67, 0x63, 0x6E, 0x0E, 0xEC, 0xCC, 0xDD, 0xDC, 0x99, 0x9F,
        0xBB, 0xB9, 0x33, 0x3E,
    ]
}

/// The logo region of a header, offsets 0x04..=0x33.
pub open spec fn logo_region(h: Seq<u8>) -> Seq<u8>
    recommends
        h.len() >= HEADER_BYTES,
{
    h.subrange(LOGO_ADDRESS_START as int, LOGO_ADDRESS_END + 1)
}

/// The title region of a header, offsets 0x34..=0x43.
pub open spec fn title_region(h: Seq<u8>) -> Seq<u8>
    recommends
        h.len() >= HEADER_BYTES,
{
    h.subrange(TITLE_ADDRESS_START as int, TITLE_ADDRESS_END + 1)
}

/// Whether `byte` counts as trailing whitespace when the title is trimmed:
/// the ASCII space and control whitespace bytes.
pub open spec fn is_trailing_whitespace(byte: u8) -> bool {
    byte == 0x20 || (0x09 <= byte <= 0x0D)
}

/// `s` with every trailing NUL byte removed.
pub open spec fn trim_trailing_nuls(s: Seq<u8>) -> Seq<u8>
    decreases s.len(),
{
    if s.len() > 0 && s.last() == 0 {
        trim_trailing_nuls(s.drop_last())
    } else {
        s
    }
}

/// `s` with every trailing whitespace byte removed.
pub open spec fn trim_trailing_whitespace(s: Seq<u8>) -> Seq<u8>
    decreases s.len(),
{
    if s.len() > 0 && is_trailing_whitespace(s.last()) {
        trim_trailing_whitespace(s.drop_last())
    } else {
        s
    }
}

/// The title bytes as stored, with the trailing NUL padding and then any
/// trailing whitespace trimmed away.
pub open spec fn trimmed(s: Seq<u8>) -> Seq<u8> {
    trim_trailing_whitespace(trim_trailing_nuls(s))
}

/// One step of the header checksum: `acc - byte - 1` with 8-bit wraparound.
pub open spec fn checksum_step(acc: u8, byte: u8) -> u8 {
    ((acc - byte - 1) % 0x100) as u8
}

/// The checksum accumulated over header bytes 0x34 (inclusive) up to `i`
/// (exclusive), starting from 0.
pub open spec fn checksum_fold(h: Seq<u8>, i: int) -> u8
    recommends
        TITLE_ADDRESS_START <= i <= h.len(),
    decreases i,
{
    if i <= TITLE_ADDRESS_START {
        0
    } else {
        checksum_step(checksum_fold(h, i - 1), h[i - 1])
    }
}

/// The recomputed header checksum: the fold over offsets 0x34..=0x4C.
pub open spec fn checksum_of(h: Seq<u8>) -> u8
    recommends
        h.len() >= HEADER_BYTES,
{
    checksum_fold(h, HEADER_CHECKSUM_ADDRESS as int)
}

/// The global checksum word, stored big-endian at offsets 0x4E..=0x4F.
pub open spec fn global_checksum_of(h: Seq<u8>) -> u16
    recommends
        h.len() >= HEADER_BYTES,
{
    (h[GLOBAL_CHECKSUM_ADDRESS_START as int] * 0x100 + h[GLOBAL_CHECKSUM_ADDRESS_END as int]) as u16
}

/// The message an undersized header buffer is rejected with.
pub open spec fn length_error_rep(len: nat) -> Seq<char> {
    "Provided header data was "@ + decimal_rep(len) + " bytes, but header must be 80 bytes"@
}

/// The message an undecodable title is rejected with.
pub open spec fn title_error_rep() -> Seq<char> {
    "header title is not valid UTF-8"@
}

/// The message an unrecognized ROM-size code is rejected with.
pub open spec fn rom_banks_error_rep(code: u8) -> Seq<char> {
    "invalid rom banks code "@ + hex_byte_rep(code)
}

/// The message an unrecognized RAM-size code is rejected with.
pub open spec fn ram_banks_error_rep(code: u8) -> Seq<char> {
    "invalid ram banks code "@ + hex_byte_rep(code)
}

/// Across the codes the ROM-size byte admits, the bank count `2 << code`
/// is strictly increasing: larger codes always mean strictly more banks.
pub proof fn lemma_rom_banks_strictly_increasing(code1: u8, code2: u8)
    requires
        code1 < code2,
        code2 <= 8,
    ensures
        2usize << code1 < 2usize << code2,
{
    assert(code1 < code2 && code2 <= 8 ==> 2usize << code1 < 2usize << code2) by (bit_vector);
}

/// The sparse RAM-size table: banks per code, or `None` for any other code.
pub open spec fn ram_banks_of(code: u8) -> Option<usize> {
    match code {
        0x00 => Some(0usize),
        0x02 => Some(1usize),
        0x03 => Some(4usize),
        0x04 => Some(16usize),
        0x05 => Some(8usize),
        _ => None,
    }
}

/// Whether every field of the header decodes: the buffer is long enough,
/// the trimmed title is valid text, and the three coded fields are in their
/// tables. Logo and checksum mismatches are advisory and never block.
pub open spec fn header_ok(h: Seq<u8>) -> bool {
    &&& h.len() >= HEADER_BYTES
    &&& valid_utf8(trimmed(title_region(h)))
    &&& cartridge_type_of(h[CARTRIDGE_TYPE_ADDRESS as int]) is Some
    &&& h[ROM_BANKS_ADDRESS as int] <= 8
    &&& ram_banks_of(h[RAM_BANKS_ADDRESS as int]) is Some
}

/// The message a header that does not decode is rejected with: that of the
/// first field to fail, in parse order.
pub open spec fn header_error_rep(h: Seq<u8>) -> Seq<char>
    recommends
        !header_ok(h),
{
    if h.len() < HEADER_BYTES {
        length_error_rep(h.len())
    } else if !valid_utf8(trimmed(title_region(h))) {
        title_error_rep()
    } else if cartridge_type_of(h[CARTRIDGE_TYPE_ADDRESS as int]) is None {
        cartridge_type_error_rep(h[CARTRIDGE_TYPE_ADDRESS as int])
    } else if h[ROM_BANKS_ADDRESS as int] > 8 {
        rom_banks_error_rep(h[ROM_BANKS_ADDRESS as int])
    } else {
        ram_banks_error_rep(h[RAM_BANKS_ADDRESS as int])
    }
}

/// A checksum comparison: the recomputed value when it matches the stored
/// byte, or both values when it does not.
#[derive(Debug, Eq, PartialEq, Structural)]
pub enum Checksum<T> {
    Match(T),
    Mismatch { actual: T, expected: T },
}

/// The header-checksum outcome a given header yields.
pub open spec fn checksum_result(h: Seq<u8>) -> Checksum<u8>
    recommends
        h.len() >= HEADER_BYTES,
{
    if h[HEADER_CHECKSUM_ADDRESS as int] == checksum_of(h) {
        Checksum::Match(checksum_of(h))
    } else {
        Checksum::Mismatch {
            actual: checksum_of(h),
            expected: h[HEADER_CHECKSUM_ADDRESS as int],
        }
    }
}

/// The advisory validation record: none of these block a load; callers must
/// branch on them explicitly to reject suspicious images.
#[derive(Debug, Eq, PartialEq, Structural)]
pub struct Validation {
    pub logo: bool,
    pub header_checksum: Checksum<u8>,
    pub global_checksum: u16,
}

/// An immutable description of a cartridge, parsed once from the 80-byte
/// header region and never mutated afterwards.
#[derive(Debug, Eq)]
pub struct Header {
    pub title: String,
    pub cartridge_type: CartridgeType,
    pub rom_banks: usize,
    pub ram_banks: usize,
    pub version: u8,
    pub validation: Validation,
}

impl PartialEq for Header {
    fn eq(&self, other: &Header) -> (r: bool) {
        self.title == other.title && self.cartridge_type == other.cartridge_type
            && self.rom_banks == other.rom_banks && self.ram_banks == other.ram_banks
            && self.version == other.version && self.validation == other.validation
    }
}

impl vstd::std_specs::cmp::PartialEqSpecImpl for Header {
    open spec fn obeys_eq_spec() -> bool {
        true
    }

    open spec fn eq_spec(&self, other: &Header) -> bool {
        &&& self.title@ == other.title@
        &&& self.cartridge_type == other.cartridge_type
        &&& self.rom_banks == other.rom_banks
        &&& self.ram_banks == other.ram_banks
        &&& self.version == other.version
        &&& self.validation == other.validation
    }
}

/// Relies on `core::str::from_utf8`: it returns `Ok` exactly when the bytes
/// are valid UTF-8, and the returned string slice then reads those same
/// bytes, so its characters are their decoding.
pub assume_specification[ core::str::from_utf8 ](v: &[u8]) -> (result: Result<
    &str,
    core::str::Utf8Error,
>)
    ensures
        result is Ok <==> valid_utf8(v@),
        result matches Ok(s) ==> s@ == decode_utf8(v@),
;

#[verifier::external_type_specification]
#[verifier::external_body]
pub struct ExUtf8Error(core::str::Utf8Error);

/// Copies `bytes[from..to]` into an owned vector.
pub fn copy_range(bytes: &[u8], from: usize, to: usize) -> (v: Vec<u8>)
    requires
        from <= to <= bytes@.len(),
    ensures
        v@ == bytes@.subrange(from as int, to as int),
{
    let mut v: Vec<u8> = Vec::new();
    let mut i: usize = from;
    while i < to
        invariant
            from <= i <= to <= bytes@.len(),
            v@ == bytes@.subrange(from as int, i as int),
        decreases to - i,
    {
        v.push(*vstd::slice::slice_index_get(bytes, i));
        proof {
            assert(v@ =~= bytes@.subrange(from as int, i + 1));
        }
        i = i + 1;
    }
    v
}

fn is_trailing_whitespace_byte(byte: u8) -> (r: bool)
    ensures
        r == is_trailing_whitespace(byte),
{
    byte == 0x20 || (0x09 <= byte && byte <= 0x0D)
}

impl Header {
    /// Rejects a buffer shorter than the 80 bytes a header occupies.
    pub fn precondition_len(header: &[u8]) -> (result: ParseResult<()>)
        ensures
            result is Ok <==> header@.len() >= HEADER_BYTES,
            result matches Err(message) ==> message@ == length_error_rep(header@.len()),
    {
        if header.len() < HEADER_BYTES {
            let mut message = String::from_str("Provided header data was ");
            let len_text = decimal_string(header.len());
            message.append(len_text.as_str());
            message.append(" bytes, but header must be 80 bytes");
            Err(message)
        } else {
            Ok(())
        }
    }

    /// Whether the given logo region is byte-exact against the fixed bitmap.
    /// This only produces a boolean; it never blocks a parse.
    pub fn check_logo_valid(logo_bytes: &[u8]) -> (valid: bool)
        ensures
            valid == (logo_bytes@ == logo()),
    {
        let expected: Vec<u8> = vec![
            0xCEu8, 0xED, 0x66, 0x66, 0xCC, 0x0D, 0x00, 0x0B, 0x03, 0x73, 0x00, 0x83, 0x00, 0x0C,
            0x00, 0x0D, 0x00, 0x08, 0x11, 0x1F, 0x88, 0x89, 0x00, 0x0E, 0xDC, 0xCC, 0x6E, 0xE6,
            0xDD, 0xDD, 0xD9, 0x99, 0xBB, 0xBB, 0x67, 0x63, 0x6E, 0x0E, 0xEC, 0xCC, 0xDD, 0xDC,
            0x99, 0x9F, 0xBB, 0xB9, 0x33, 0x3E,
        ];
        proof {
            assert(expected@ =~= logo());
        }
        if logo_bytes.len() != expected.len() {
            proof {
                assert(logo_bytes@ != logo());
            }
            return false;
        }
        let mut i: usize = 0;
        while i < expected.len()
            invariant
                i <= expected@.len(),
                logo_bytes@.len() == expected@.len(),
                expected@ == logo(),
                forall|j: int| 0 <= j < i ==> logo_bytes@[j] == expected@[j],
            decreases expected@.len() - i,
        {
            if *vstd::slice::slice_index_get(logo_bytes, i) != expected[i] {
                return false;
            }
            i = i + 1;
        }
        proof {
            assert(logo_bytes@ =~= logo());
        }
        true
    }

    /// Decodes the title region: trailing NUL padding and then trailing
    /// whitespace are trimmed, and the rest must be valid text.
    pub fn parse_title(title_bytes: &[u8]) -> (result: ParseResult<String>)
        ensures
            result is Ok <==> valid_utf8(trimmed(title_bytes@)),
            result matches Ok(title) ==> title@ == decode_utf8(trimmed(title_bytes@)),
            result matches Err(message) ==> message@ == title_error_rep(),
    {
        let ghost h = title_bytes@;
        let mut end = title_bytes.len();
        proof {
            assert(h.subrange(0, end as int) =~= h);
        }
        while end > 0 && *vstd::slice::slice_index_get(title_bytes, end - 1) == 0
            invariant
                end <= h.len(),
                title_bytes@ == h,
                trim_trailing_nuls(h) == trim_trailing_nuls(h.subrange(0, end as int)),
            decreases end,
        {
            proof {
                let s = h.subrange(0, end as int);
                assert(s.last() == 0);
                assert(s.drop_last() =~= h.subrange(0, end - 1));
            }
            end = end - 1;
        }
        proof {
            assert(trim_trailing_nuls(h.subrange(0, end as int)) == h.subrange(0, end as int));
        }
        let ghost after_nuls = end as int;
        let mut end2 = end;
        while end2 > 0 && is_trailing_whitespace_byte(
            *vstd::slice::slice_index_get(title_bytes, end2 - 1),
        )
            invariant
                end2 <= after_nuls <= h.len(),
                title_bytes@ == h,
                trim_trailing_nuls(h) == h.subrange(0, after_nuls),
                trim_trailing_whitespace(h.subrange(0, after_nuls)) == trim_trailing_whitespace(
                    h.subrange(0, end2 as int),
                ),
            decreases end2,
        {
            proof {
                let s = h.subrange(0, end2 as int);
                assert(is_trailing_whitespace(s.last()));
                assert(s.drop_last() =~= h.subrange(0, end2 - 1));
            }
            end2 = end2 - 1;
        }
        proof {
            assert(trim_trailing_whitespace(h.subrange(0, end2 as int)) == h.subrange(
                0,
                end2 as int,
            ));
            assert(trimmed(h) == h.subrange(0, end2 as int));
        }
        let trimmed_bytes = copy_range(title_bytes, 0, end2);
        match core::str::from_utf8(trimmed_bytes.as_slice()) {
            Ok(title) => Ok(title.to_owned()),
            Err(_) => Err(String::from_str("header title is not valid UTF-8")),
        }
    }

    /// Decodes the ROM-size byte: `banks = 2 << code`, defined only for
    /// codes 0 through 8.
    pub fn parse_rom_banks(code: u8) -> (result: ParseResult<usize>)
        ensures
            result is Ok <==> code <= 8,
            code <= 8 ==> result == Ok::<usize, String>(2usize << code),
            result matches Err(message) ==> message@ == rom_banks_error_rep(code),
    {
        if code <= 0x08 {
            Ok(2usize << code)
        } else {
            let mut message = String::from_str("invalid rom banks code ");
            let code_text = hex_byte_string(code);
            message.append(code_text.as_str());
            Err(message)
        }
    }

    /// Decodes the RAM-size byte against its sparse table.
    pub fn parse_ram_banks(code: u8) -> (result: ParseResult<usize>)
        ensures
            result is Ok <==> ram_banks_of(code) is Some,
            result matches Ok(banks) ==> ram_banks_of(code) == Some(banks),
            result matches Err(message) ==> message@ == ram_banks_error_rep(code),
    {
        match code {
            0x00 => Ok(0),
            0x02 => Ok(1),
            0x03 => Ok(4),
            0x04 => Ok(16),
            0x05 => Ok(8),
            _ => {
                let mut message = String::from_str("invalid ram banks code ");
                let code_text = hex_byte_string(code);
                message.append(code_text.as_str());
                Err(message)
            },
        }
    }

    /// Recomputes the checksum over offsets 0x34..=0x4C and compares it to
    /// the stored byte. A mismatch is reported, never a hard failure.
    pub fn check_header_checksum(header: &[u8]) -> (result: Checksum<u8>)
        requires
            header@.len() >= HEADER_BYTES,
        ensures
            result == checksum_result(header@),
    {
        let expected_checksum = *vstd::slice::slice_index_get(header, HEADER_CHECKSUM_ADDRESS);
        let mut actual_checksum: u8 = 0;
        let mut i: usize = TITLE_ADDRESS_START;
        while i < HEADER_CHECKSUM_ADDRESS
            invariant
                TITLE_ADDRESS_START <= i <= HEADER_CHECKSUM_ADDRESS,
                header@.len() >= HEADER_BYTES,
                actual_checksum == checksum_fold(header@, i as int),
            decreases HEADER_CHECKSUM_ADDRESS - i,
        {
            let byte = *vstd::slice::slice_index_get(header, i);
            let difference = (actual_checksum as i32) - (byte as i32) - 1;
            let wrapped = if difference < 0 {
                difference + 0x100
            } else {
                difference
            };
            actual_checksum = wrapped as u8;
            i = i + 1;
        }
        if expected_checksum == actual_checksum {
            Checksum::Match(actual_checksum)
        } else {
            Checksum::Mismatch { actual: actual_checksum, expected: expected_checksum }
        }
    }

    /// Parses the header from its raw bytes.
    ///
    /// The header appears starting at 0x100 in a cartridge's memory; the
    /// slice given here should be just the header region. A mismatched logo
    /// or checksum only marks the validation record; every other decoding
    /// failure is reported as the error of the first field to fail.
    pub fn parse(header: &[u8]) -> (result: ParseResult<Header>)
        ensures
            result is Ok <==> header_ok(header@),
            result matches Ok(parsed) ==> {
                &&& parsed.title@ == decode_utf8(trimmed(title_region(header@)))
                &&& cartridge_type_of(header@[CARTRIDGE_TYPE_ADDRESS as int]) == Some(
                    parsed.cartridge_type,
                )
                &&& parsed.rom_banks == 2usize << header@[ROM_BANKS_ADDRESS as int]
                &&& ram_banks_of(header@[RAM_BANKS_ADDRESS as int]) == Some(parsed.ram_banks)
                &&& parsed.version == header@[VERSION_ADDRESS as int]
                &&& parsed.validation.logo == (logo_region(header@) == logo())
                &&& parsed.validation.header_checksum == checksum_result(header@)
                &&& parsed.validation.global_checksum == global_checksum_of(header@)
            },
            result matches Err(message) ==> message@ == header_error_rep(header@),
    {
        if let Err(message) = Header::precondition_len(header) {
            return Err(message);
        }
        let logo_bytes = copy_range(header, LOGO_ADDRESS_START, LOGO_ADDRESS_END + 1);
        let logo_valid = Header::check_logo_valid(logo_bytes.as_slice());
        let title_bytes = copy_range(header, TITLE_ADDRESS_START, TITLE_ADDRESS_END + 1);
        let title = match Header::parse_title(title_bytes.as_slice()) {
            Ok(title) => title,
            Err(message) => {
                return Err(message);
            },
        };
        let cartridge_type = match CartridgeType::parse(
            *vstd::slice::slice_index_get(header, CARTRIDGE_TYPE_ADDRESS),
        ) {
            Ok(cartridge_type) => cartridge_type,
            Err(message) => {
                return Err(message);
            },
        };
        let rom_banks = match Header::parse_rom_banks(
            *vstd::slice::slice_index_get(header, ROM_BANKS_ADDRESS),
        ) {
            Ok(banks) => banks,
            Err(message) => {
                return Err(message);
            },
        };
        let ram_banks = match Header::parse_ram_banks(
            *vstd::slice::slice_index_get(header, RAM_BANKS_ADDRESS),
        ) {
            Ok(banks) => banks,
            Err(message) => {
                return Err(message);
            },
        };
        let version = *vstd::slice::slice_index_get(header, VERSION_ADDRESS);
        let header_checksum = Header::check_header_checksum(header);
        let high = *vstd::slice::slice_index_get(header, GLOBAL_CHECKSUM_ADDRESS_START);
        let low = *vstd::slice::slice_index_get(header, GLOBAL_CHECKSUM_ADDRESS_END);
        let global_checksum = (high as u16) * 0x100 + (low as u16);
        Ok(
            Header {
                title,
                cartridge_type,
                rom_banks,
                ram_banks,
                version,
                validation: Validation {
                    logo: logo_valid,
                    header_checksum,
                    global_checksum,
                },
            },
        )
    }
}

impl Parse<&[u8]> for Header {
    fn parse(header: &[u8]) -> ParseResult<Header> {
        Header::parse(header)
    }
}

} // verus!
