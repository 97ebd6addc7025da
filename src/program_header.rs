//! Entries of the program header table. The two classes place the flags word
//! differently: a 64-bit entry has it right after the type, a 32-bit entry
//! after the memory size.
use vstd::prelude::*;
use crate::error::DecodeError;
use crate::field_reader::{field, in_bounds, read_u32_at, read_word_at, word};
use crate::header_enums::{word_width, Class, Endian};
use crate::phdr_enums::{PFlags, PType};

verus! {

/// One decoded program header table entry (a segment).
#[derive(Debug, Clone, Copy, PartialEq, Eq, Structural)]
pub struct PHeader {
    pub ptype: PType,
    pub pflags: PFlags,
    pub offset: u64,
    pub vaddr: u64,
    pub paddr: u64,
    pub filesz: u64,
    pub memsz: u64,
    pub align: u64,
}

/// Where each field of a program header entry starts, relative to the
/// entry, and how many bytes the entry spans. The type word is always first.
#[derive(Debug, Clone, Copy, PartialEq, Eq, Structural)]
pub struct PhdrLayout {
    pub flags: usize,
    pub offset: usize,
    pub vaddr: usize,
    pub paddr: usize,
    pub filesz: usize,
    pub memsz: usize,
    pub align: usize,
    pub size: usize,
}

/// The layout of a program header entry of a file of class `class`.
pub open spec fn spec_phdr_layout(class: Class) -> PhdrLayout {
    match class {
        Class::X32Bit => PhdrLayout {
            offset: 4,
            vaddr: 8,
            paddr: 12,
            filesz: 16,
            memsz: 20,
            flags: 24,
            align: 28,
            size: 32,
        },
        Class::X64Bit => PhdrLayout {
            flags: 4,
            offset: 8,
            vaddr: 16,
            paddr: 24,
            filesz: 32,
            memsz: 40,
            align: 48,
            size: 56,
        },
    }
}

pub fn phdr_layout(class: Class) -> (r: PhdrLayout)
    ensures
        r == spec_phdr_layout(class),
{
    match class {
        Class::X32Bit => PhdrLayout {
            offset: 4,
            vaddr: 8,
            paddr: 12,
            filesz: 16,
            memsz: 20,
            flags: 24,
            align: 28,
            size: 32,
        },
        Class::X64Bit => PhdrLayout {
            flags: 4,
            offset: 8,
            vaddr: 16,
            paddr: 24,
            filesz: 32,
            memsz: 40,
            align: 48,
            size: 56,
        },
    }
}

/// What decoding the program header entry of `b` at `at` gives.
pub open spec fn decode_phdr(b: Seq<u8>, at: int, class: Class, endian: Endian) -> Result<
    PHeader,
    DecodeError,
> {
    let l = spec_phdr_layout(class);
    if !in_bounds(b, at, l.size as int) {
        Err(DecodeError::Bounds)
    } else {
        Ok(
            PHeader {
                ptype: PType::spec_from_raw(field(b, at, 4, endian) as u32),
                pflags: PFlags::spec_from_raw(field(b, at + l.flags, 4, endian) as u32),
                offset: word(b, at + l.offset, class, endian),
                vaddr: word(b, at + l.vaddr, class, endian),
                paddr: word(b, at + l.paddr, class, endian),
                filesz: word(b, at + l.filesz, class, endian),
                memsz: word(b, at + l.memsz, class, endian),
                align: word(b, at + l.align, class, endian),
            },
        )
    }
}

/// Decodes the program header entry that starts at `phdr_offset`.
pub fn parse(content: &Vec<u8>, phdr_offset: u64, class: Class, endian: Endian) -> (r: Result<
    PHeader,
    DecodeError,
>)
    ensures
        r == decode_phdr(content@, phdr_offset as int, class, endian),
{
    let l = phdr_layout(class);
    let len = content.len() as u64;
    if phdr_offset > len || len - phdr_offset < l.size as u64 {
        return Err(DecodeError::Bounds);
    }
    let at = phdr_offset as usize;
    let ptype = PType::from_raw(read_u32_at(content, at, endian));
    let pflags = PFlags::from_raw(read_u32_at(content, at + l.flags, endian));
    Ok(
        PHeader {
            ptype,
            pflags,
            offset: read_word_at(content, at + l.offset, class, endian),
            vaddr: read_word_at(content, at + l.vaddr, class, endian),
            paddr: read_word_at(content, at + l.paddr, class, endian),
            filesz: read_word_at(content, at + l.filesz, class, endian),
            memsz: read_word_at(content, at + l.memsz, class, endian),
            align: read_word_at(content, at + l.align, class, endian),
        },
    )
}

} // verus!
