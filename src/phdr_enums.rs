use vstd::prelude::*;

verus! {

/// Kind of segment.
#[allow(non_camel_case_types)]
#[derive(Debug, Clone, Copy, PartialEq, Eq, Structural)]
pub enum PType {
    NULL,
    LOAD,
    DYNAMIC,
    INTERP,
    NOTE,
    SHLIB,
    PHDR,
    TLS,
    LOOS,
    GNU_EH_FRAME,
    GNU_STACK,
    GNU_RELRO,
    GNU_PROPERTY,
    GNU_SFRAME,
    HIOS,
    LOPROC,
    HIPROC,
    /// A value that no variant names.
    Unknown(u32),
}

impl PType {
    /// The variant that the raw value `v` names.
    pub open spec fn spec_from_raw(v: u32) -> PType {
        match v {
            0x00 => PType::NULL,
            0x01 => PType::LOAD,
            0x02 => PType::DYNAMIC,
            0x03 => PType::INTERP,
            0x04 => PType::NOTE,
            0x05 => PType::SHLIB,
            0x06 => PType::PHDR,
            0x07 => PType::TLS,
            0x6000_0000 => PType::LOOS,
            0x6474_e550 => PType::GNU_EH_FRAME,
            0x6474_e551 => PType::GNU_STACK,
            0x6474_e552 => PType::GNU_RELRO,
            0x6474_e553 => PType::GNU_PROPERTY,
            0x6474_e554 => PType::GNU_SFRAME,
            0x6FFF_FFFF => PType::HIOS,
            0x7000_0000 => PType::LOPROC,
            0x7FFF_FFFF => PType::HIPROC,
            _ => PType::Unknown(v),
        }
    }

    /// The raw value that stands for `self` in a file.
    pub open spec fn spec_to_raw(self) -> u32 {
        match self {
            PType::NULL => 0x00,
            PType::LOAD => 0x01,
            PType::DYNAMIC => 0x02,
            PType::INTERP => 0x03,
            PType::NOTE => 0x04,
            PType::SHLIB => 0x05,
            PType::PHDR => 0x06,
            PType::TLS => 0x07,
            PType::LOOS => 0x6000_0000,
            PType::GNU_EH_FRAME => 0x6474_e550,
            PType::GNU_STACK => 0x6474_e551,
            PType::GNU_RELRO => 0x6474_e552,
            PType::GNU_PROPERTY => 0x6474_e553,
            PType::GNU_SFRAME => 0x6474_e554,
            PType::HIOS => 0x6FFF_FFFF,
            PType::LOPROC => 0x7000_0000,
            PType::HIPROC => 0x7FFF_FFFF,
            PType::Unknown(v) => v,
        }
    }

    pub fn from_raw(v: u32) -> (r: PType)
        ensures
            r == PType::spec_from_raw(v),
    {
        match v {
            0x00 => PType::NULL,
            0x01 => PType::LOAD,
            0x02 => PType::DYNAMIC,
            0x03 => PType::INTERP,
            0x04 => PType::NOTE,
            0x05 => PType::SHLIB,
            0x06 => PType::PHDR,
            0x07 => PType::TLS,
            0x6000_0000 => PType::LOOS,
            0x6474_e550 => PType::GNU_EH_FRAME,
            0x6474_e551 => PType::GNU_STACK,
            0x6474_e552 => PType::GNU_RELRO,
            0x6474_e553 => PType::GNU_PROPERTY,
            0x6474_e554 => PType::GNU_SFRAME,
            0x6FFF_FFFF => PType::HIOS,
            0x7000_0000 => PType::LOPROC,
            0x7FFF_FFFF => PType::HIPROC,
            _ => PType::Unknown(v),
        }
    }
}

/// Access rights of a segment: the bits 4 (read), 2 (write) and 1 (execute)
/// of the raw flags word, each on its own.
#[derive(Debug, Clone, Copy, PartialEq, Eq, Structural)]
pub struct PFlags {
    pub read: bool,
    pub write: bool,
    pub execute: bool,
}

impl PFlags {
    /// The rights that the raw flags word `v` grants.
    pub open spec fn spec_from_raw(v: u32) -> PFlags {
        PFlags { read: v & 4 != 0, write: v & 2 != 0, execute: v & 1 != 0 }
    }

    pub fn from_raw(v: u32) -> (r: PFlags)
        ensures
            r == PFlags::spec_from_raw(v),
    {
        PFlags { read: v & 4 != 0, write: v & 2 != 0, execute: v & 1 != 0 }
    }

    /// Whether no right is granted.
    pub fn is_empty(self) -> (r: bool)
        ensures
            r == (!self.read && !self.write && !self.execute),
    {
        !self.read && !self.write && !self.execute
    }
}

} // verus!
