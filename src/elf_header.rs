//! The file header: identity block, then the fields whose width and byte
//! order the identity block decides.
use vstd::prelude::*;
use crate::error::DecodeError;
use crate::field_reader::{field, read_u16_at, read_u32_at, read_word_at, word};
use crate::header_enums::{word_width, Abi, BinType, Class, Endian, Machine};

verus! {

/// The decoded file header. Address-sized fields are widened to 64 bits
/// whatever the class.
#[derive(Debug, Clone, Copy, PartialEq, Eq, Structural)]
pub struct Header {
    pub class: Class,
    pub endian: Endian,
    pub version: u8,
    pub abi: Abi,
    pub abi_version: u8,
    pub bin_type: BinType,
    pub machine: Machine,
    pub misc_version: u32,
    pub entry_point: u64,
    pub phdr_offset: u64,
    pub shdr_offset: u64,
    pub flags: u32,
    pub hdr_sz: u16,
    pub phdr_entry_sz: u16,
    pub phdr_entries: u16,
    pub shdr_entry_sz: u16,
    pub shdr_entries: u16,
    pub shstr_idx: u16,
}

/// Bytes of the identity block that are read: magic, class, byte order,
/// version, OS/ABI and ABI version.
pub const IDENT_READ_LEN: usize = 9;

/// Whether `b` starts with `0x7F 'E' 'L' 'F'`.
pub open spec fn has_magic(b: Seq<u8>) -> bool {
    &&& b.len() >= 4
    &&& b[0] == 0x7f
    &&& b[1] == 0x45
    &&& b[2] == 0x4c
    &&& b[3] == 0x46
}

/// Bytes of the file header of a file of class `class`.
pub open spec fn header_size(class: Class) -> int {
    0x28 + 3 * word_width(class)
}

/// The header that `b` holds, once its class and byte order are known and
/// it is long enough.
pub open spec fn header_fields(b: Seq<u8>, class: Class, endian: Endian) -> Header {
    let w = word_width(class);
    Header {
        class,
        endian,
        version: b[6],
        abi: Abi::spec_from_raw(b[7]),
        abi_version: b[8],
        bin_type: BinType::spec_from_raw(field(b, 0x10, 2, endian) as u16),
        machine: Machine::spec_from_raw(field(b, 0x12, 2, endian) as u16),
        misc_version: field(b, 0x14, 4, endian) as u32,
        entry_point: word(b, 0x18, class, endian),
        phdr_offset: word(b, 0x18 + w, class, endian),
        shdr_offset: word(b, 0x18 + 2 * w, class, endian),
        flags: field(b, 0x18 + 3 * w, 4, endian) as u32,
        hdr_sz: field(b, 0x1c + 3 * w, 2, endian) as u16,
        phdr_entry_sz: field(b, 0x1e + 3 * w, 2, endian) as u16,
        phdr_entries: field(b, 0x20 + 3 * w, 2, endian) as u16,
        shdr_entry_sz: field(b, 0x22 + 3 * w, 2, endian) as u16,
        shdr_entries: field(b, 0x24 + 3 * w, 2, endian) as u16,
        shstr_idx: field(b, 0x26 + 3 * w, 2, endian) as u16,
    }
}

/// What decoding the file header of `b` gives: the magic is checked first,
/// then the identity block, then the length that the class asks for.
pub open spec fn decode_header(b: Seq<u8>) -> Result<Header, DecodeError> {
    if b.len() < 4 {
        Err(DecodeError::Bounds)
    } else if !has_magic(b) {
        Err(DecodeError::Format)
    } else if b.len() < IDENT_READ_LEN {
        Err(DecodeError::Bounds)
    } else {
        match (Class::spec_from_raw(b[4]), Endian::spec_from_raw(b[5])) {
            (Some(class), Some(endian)) => if b.len() < header_size(class) {
                Err(DecodeError::Bounds)
            } else {
                Ok(header_fields(b, class, endian))
            },
            _ => Err(DecodeError::Identity),
        }
    }
}

/// Decodes the file header at the start of `content`.
pub fn parse(content: &Vec<u8>) -> (r: Result<Header, DecodeError>)
    ensures
        r == decode_header(content@),
{
    if content.len() < 4 {
        return Err(DecodeError::Bounds);
    }
    if !(content[0] == 0x7f && content[1] == 0x45 && content[2] == 0x4c && content[3] == 0x46) {
        return Err(DecodeError::Format);
    }
    if content.len() < IDENT_READ_LEN {
        return Err(DecodeError::Bounds);
    }
    let class = match Class::from_raw(content[4]) {
        Some(c) => c,
        None => return Err(DecodeError::Identity),
    };
    let endian = match Endian::from_raw(content[5]) {
        Some(e) => e,
        None => return Err(DecodeError::Identity),
    };
    let w = class.width();
    if content.len() < 0x28 + 3 * w {
        return Err(DecodeError::Bounds);
    }
    let h = Header {
        class,
        endian,
        version: content[6],
        abi: Abi::from_raw(content[7]),
        abi_version: content[8],
        bin_type: BinType::from_raw(read_u16_at(content, 0x10, endian)),
        machine: Machine::from_raw(read_u16_at(content, 0x12, endian)),
        misc_version: read_u32_at(content, 0x14, endian),
        entry_point: read_word_at(content, 0x18, class, endian),
        phdr_offset: read_word_at(content, 0x18 + w, class, endian),
        shdr_offset: read_word_at(content, 0x18 + 2 * w, class, endian),
        flags: read_u32_at(content, 0x18 + 3 * w, endian),
        hdr_sz: read_u16_at(content, 0x1c + 3 * w, endian),
        phdr_entry_sz: read_u16_at(content, 0x1e + 3 * w, endian),
        phdr_entries: read_u16_at(content, 0x20 + 3 * w, endian),
        shdr_entry_sz: read_u16_at(content, 0x22 + 3 * w, endian),
        shdr_entries: read_u16_at(content, 0x24 + 3 * w, endian),
        shstr_idx: read_u16_at(content, 0x26 + 3 * w, endian),
    };
    Ok(h)
}

} // verus!
