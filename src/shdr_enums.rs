use vstd::prelude::*;

verus! {

/// Kind of section.
#[allow(non_camel_case_types)]
#[derive(Debug, Clone, Copy, PartialEq, Eq, Structural)]
pub enum SType {
    NULL,
    PROGBITS,
    SYMTAB,
    STRTAB,
    RELA,
    HASH,
    DYNAMIC,
    NOTE,
    NOBITS,
    REL,
    SHLIB,
    DYNSYM,
    INIT_ARRAY,
    FINI_ARRAY,
    PREINIT_ARRAY,
    GROUP,
    SYMTAB_SHNDX,
    NUM,
    /// A value that no variant names.
    Unknown(u32),
}

impl SType {
    /// The variant that the raw value `v` names.
    pub open spec fn spec_from_raw(v: u32) -> SType {
        match v {
            0x00 => SType::NULL,
            0x01 => SType::PROGBITS,
            0x02 => SType::SYMTAB,
            0x03 => SType::STRTAB,
            0x04 => SType::RELA,
            0x05 => SType::HASH,
            0x06 => SType::DYNAMIC,
            0x07 => SType::NOTE,
            0x08 => SType::NOBITS,
            0x09 => SType::REL,
            0x0A => SType::SHLIB,
            0x0B => SType::DYNSYM,
            0x0E => SType::INIT_ARRAY,
            0x0F => SType::FINI_ARRAY,
            0x10 => SType::PREINIT_ARRAY,
            0x11 => SType::GROUP,
            0x12 => SType::SYMTAB_SHNDX,
            0x13 => SType::NUM,
            _ => SType::Unknown(v),
        }
    }

    /// The raw value that stands for `self` in a file.
    pub open spec fn spec_to_raw(self) -> u32 {
        match self {
            SType::NULL => 0x00,
            SType::PROGBITS => 0x01,
            SType::SYMTAB => 0x02,
            SType::STRTAB => 0x03,
            SType::RELA => 0x04,
            SType::HASH => 0x05,
            SType::DYNAMIC => 0x06,
            SType::NOTE => 0x07,
            SType::NOBITS => 0x08,
            SType::REL => 0x09,
            SType::SHLIB => 0x0A,
            SType::DYNSYM => 0x0B,
            SType::INIT_ARRAY => 0x0E,
            SType::FINI_ARRAY => 0x0F,
            SType::PREINIT_ARRAY => 0x10,
            SType::GROUP => 0x11,
            SType::SYMTAB_SHNDX => 0x12,
            SType::NUM => 0x13,
            SType::Unknown(v) => v,
        }
    }

    pub fn from_raw(v: u32) -> (r: SType)
        ensures
            r == SType::spec_from_raw(v),
    {
        match v {
            0x00 => SType::NULL,
            0x01 => SType::PROGBITS,
            0x02 => SType::SYMTAB,
            0x03 => SType::STRTAB,
            0x04 => SType::RELA,
            0x05 => SType::HASH,
            0x06 => SType::DYNAMIC,
            0x07 => SType::NOTE,
            0x08 => SType::NOBITS,
            0x09 => SType::REL,
            0x0A => SType::SHLIB,
            0x0B => SType::DYNSYM,
            0x0E => SType::INIT_ARRAY,
            0x0F => SType::FINI_ARRAY,
            0x10 => SType::PREINIT_ARRAY,
            0x11 => SType::GROUP,
            0x12 => SType::SYMTAB_SHNDX,
            0x13 => SType::NUM,
            _ => SType::Unknown(v),
        }
    }
}

/// Section flag: writable.
pub const SHF_WRITE: u64 = 0x1;

/// Section flag: occupies memory at run time.
pub const SHF_ALLOC: u64 = 0x2;

/// Section flag: executable.
pub const SHF_EXECINSTR: u64 = 0x4;

/// Section flag: may be merged.
pub const SHF_MERGE: u64 = 0x10;

/// Section flag: holds null-terminated strings.
pub const SHF_STRINGS: u64 = 0x20;

/// Section flag: `info` holds a section index.
pub const SHF_INFO_LINK: u64 = 0x40;

/// Section flag: keeps its order after combining.
pub const SHF_LINK_ORDER: u64 = 0x80;

/// Section flag: needs OS-specific handling.
pub const SHF_OS_NONCONFORMING: u64 = 0x100;

/// Section flag: member of a group.
pub const SHF_GROUP: u64 = 0x200;

/// Section flag: holds thread-local data.
pub const SHF_TLS: u64 = 0x400;

/// Section flag: bits reserved for the operating system.
pub const SHF_MASKOS: u64 = 0x0ff0_0000;

/// Section flag: bits reserved for the processor.
pub const SHF_MASKPROC: u64 = 0xf000_0000;

/// Section flag: ordered (Solaris).
pub const SHF_ORDERED: u64 = 0x400_0000;

/// Section flag: excluded from links (Solaris).
pub const SHF_EXCLUDE: u64 = 0x800_0000;

/// Attributes of a section: the raw flags word, kept whole, so that every
/// combination of bits decodes without loss.
#[derive(Debug, Clone, Copy, PartialEq, Eq, Structural)]
pub struct SFlags {
    pub bits: u64,
}

impl SFlags {
    pub fn from_raw(v: u64) -> (r: SFlags)
        ensures
            r.bits == v,
    {
        SFlags { bits: v }
    }

    /// Whether every bit of `mask` is set.
    pub fn contains(self, mask: u64) -> (r: bool)
        ensures
            r == (self.bits & mask == mask),
    {
        self.bits & mask == mask
    }

    /// Whether no bit is set.
    pub fn is_empty(self) -> (r: bool)
        ensures
            r == (self.bits == 0),
    {
        self.bits == 0
    }
}

} // verus!
