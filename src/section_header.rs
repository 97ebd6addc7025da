//! Entries of the section header table, each named through the section-name
//! string table.
use vstd::prelude::*;
use crate::error::DecodeError;
use crate::field_reader::{field, in_bounds, read_u32_at, read_word_at, word};
use crate::header_enums::{word_width, Class, Endian};
use crate::shdr_enums::{SFlags, SType};
use crate::string_table::{name_at, read_name};

verus! {

/// One decoded section header table entry.
#[derive(Debug, PartialEq, Eq)]
pub struct SHeader {
    pub sname: String,
    pub stype: SType,
    pub sflags: SFlags,
    pub vaddr: u64,
    pub offset: u64,
    pub size: u64,
    pub link: u32,
    pub info: u32,
    pub align: u64,
    pub entsize: u64,
}

/// Bytes of a section header entry of a file of class `class`.
pub open spec fn shdr_size(class: Class) -> int {
    16 + 6 * word_width(class)
}

/// Where the name of the section whose entry is at `at` starts, given the
/// string table at `base`.
pub open spec fn shdr_name_start(b: Seq<u8>, at: int, endian: Endian, base: int) -> int {
    base + field(b, at, 4, endian)
}

/// Whether the section header entry at `at` decodes: the entry lies inside
/// `b`, and so does its name with its zero byte.
pub open spec fn shdr_decodes(b: Seq<u8>, at: int, class: Class, endian: Endian, base: int) -> bool {
    &&& in_bounds(b, at, shdr_size(class))
    &&& name_at(b, shdr_name_start(b, at, endian, base)) is Some
}

/// Whether `sh` holds what the section header entry of `b` at `at` encodes,
/// its name resolved in the string table at `base`.
pub open spec fn shdr_matches(
    sh: SHeader,
    b: Seq<u8>,
    at: int,
    class: Class,
    endian: Endian,
    base: int,
) -> bool {
    let w = word_width(class);
    &&& name_at(b, shdr_name_start(b, at, endian, base)) == Some(sh.sname@)
    &&& sh.stype == SType::spec_from_raw(field(b, at + 4, 4, endian) as u32)
    &&& sh.sflags == SFlags { bits: word(b, at + 8, class, endian) }
    &&& sh.vaddr == word(b, at + 8 + w, class, endian)
    &&& sh.offset == word(b, at + 8 + 2 * w, class, endian)
    &&& sh.size == word(b, at + 8 + 3 * w, class, endian)
    &&& sh.link == field(b, at + 8 + 4 * w, 4, endian) as u32
    &&& sh.info == field(b, at + 12 + 4 * w, 4, endian) as u32
    &&& sh.align == word(b, at + 16 + 4 * w, class, endian)
    &&& sh.entsize == word(b, at + 16 + 5 * w, class, endian)
}

/// Decodes the section header entry that starts at `shdr_offset`, resolving
/// its name in the string table that starts at `strtab_start`.
pub fn parse(
    content: &Vec<u8>,
    shdr_offset: u64,
    class: Class,
    endian: Endian,
    strtab_start: u64,
) -> (r: Result<SHeader, DecodeError>)
    ensures
        r is Ok <==> shdr_decodes(content@, shdr_offset as int, class, endian, strtab_start as int),
        r matches Ok(sh) ==> shdr_matches(
            sh,
            content@,
            shdr_offset as int,
            class,
            endian,
            strtab_start as int,
        ),
        r matches Err(e) ==> e == DecodeError::Bounds,
{
    let w = class.width();
    let len = content.len() as u64;
    if shdr_offset > len || len - shdr_offset < (16 + 6 * w) as u64 {
        return Err(DecodeError::Bounds);
    }
    let at = shdr_offset as usize;
    let name_offset = read_u32_at(content, at, endian);
    let sname = match read_name(content, strtab_start, name_offset) {
        Ok(s) => s,
        Err(e) => return Err(e),
    };
    let stype = SType::from_raw(read_u32_at(content, at + 4, endian));
    let sflags = SFlags::from_raw(read_word_at(content, at + 8, class, endian));
    Ok(
        SHeader {
            sname,
            stype,
            sflags,
            vaddr: read_word_at(content, at + 8 + w, class, endian),
            offset: read_word_at(content, at + 8 + 2 * w, class, endian),
            size: read_word_at(content, at + 8 + 3 * w, class, endian),
            link: read_u32_at(content, at + 8 + 4 * w, endian),
            info: read_u32_at(content, at + 12 + 4 * w, endian),
            align: read_word_at(content, at + 16 + 4 * w, class, endian),
            entsize: read_word_at(content, at + 16 + 5 * w, class, endian),
        },
    )
}

} // verus!
