use vstd::prelude::*;

verus! {

/// Width of address-sized fields.
#[derive(Debug, Clone, Copy, PartialEq, Eq, Structural)]
pub enum Class {
    X32Bit,
    X64Bit,
}

/// Byte order of multi-byte fields.
#[derive(Debug, Clone, Copy, PartialEq, Eq, Structural)]
pub enum Endian {
    Little,
    Big,
}

/// Bytes in an address-sized field of a file of class `class`.
pub open spec fn word_width(class: Class) -> int {
    match class {
        Class::X32Bit => 4,
        Class::X64Bit => 8,
    }
}

impl Class {
    /// The class named by the identity byte at offset 4, if it is known.
    pub open spec fn spec_from_raw(v: u8) -> Option<Class> {
        if v == 1 {
            Some(Class::X32Bit)
        } else if v == 2 {
            Some(Class::X64Bit)
        } else {
            None
        }
    }

    pub fn from_raw(v: u8) -> (r: Option<Class>)
        ensures
            r == Class::spec_from_raw(v),
    {
        if v == 1 {
            Some(Class::X32Bit)
        } else if v == 2 {
            Some(Class::X64Bit)
        } else {
            None
        }
    }

    /// The identity byte that stands for `self`.
    pub open spec fn spec_to_raw(self) -> u8 {
        match self {
            Class::X32Bit => 1,
            Class::X64Bit => 2,
        }
    }

    /// Bytes in an address-sized field.
    pub fn width(self) -> (r: usize)
        ensures
            r == word_width(self),
    {
        match self {
            Class::X32Bit => 4,
            Class::X64Bit => 8,
        }
    }
}

impl Endian {
    /// The byte order named by the identity byte at offset 5, if it is known.
    pub open spec fn spec_from_raw(v: u8) -> Option<Endian> {
        if v == 1 {
            Some(Endian::Little)
        } else if v == 2 {
            Some(Endian::Big)
        } else {
            None
        }
    }

    /// The identity byte that stands for `self`.
    pub open spec fn spec_to_raw(self) -> u8 {
        match self {
            Endian::Little => 1,
            Endian::Big => 2,
        }
    }

    pub fn from_raw(v: u8) -> (r: Option<Endian>)
        ensures
            r == Endian::spec_from_raw(v),
    {
        if v == 1 {
            Some(Endian::Little)
        } else if v == 2 {
            Some(Endian::Big)
        } else {
            None
        }
    }
}

/// Operating system / ABI named by the identity byte at offset 7.
#[derive(Debug, Clone, Copy, PartialEq, Eq, Structural)]
pub enum Abi {
    SystemV,
    HpUX,
    NetBSD,
    Linux,
    GnuHurd,
    Solaris,
    AIX,
    IRIX,
    FreeBSD,
    Tru64,
    Novell,
    OpenBSD,
    OpenVMS,
    NonStop,
    AROS,
    FenixOS,
    Nuxi,
    Stratus,
    /// A value that no variant names.
    Unknown(u8),
}

impl Abi {
    /// The variant that the raw value `v` names.
    pub open spec fn spec_from_raw(v: u8) -> Abi {
        match v {
            0x00 => Abi::SystemV,
            0x01 => Abi::HpUX,
            0x02 => Abi::NetBSD,
            0x03 => Abi::Linux,
            0x04 => Abi::GnuHurd,
            0x06 => Abi::Solaris,
            0x07 => Abi::AIX,
            0x08 => Abi::IRIX,
            0x09 => Abi::FreeBSD,
            0x0A => Abi::Tru64,
            0x0B => Abi::Novell,
            0x0C => Abi::OpenBSD,
            0x0D => Abi::OpenVMS,
            0x0E => Abi::NonStop,
            0x0F => Abi::AROS,
            0x10 => Abi::FenixOS,
            0x11 => Abi::Nuxi,
            0x12 => Abi::Stratus,
            _ => Abi::Unknown(v),
        }
    }

    /// The raw value that stands for `self` in a file.
    pub open spec fn spec_to_raw(self) -> u8 {
        match self {
            Abi::SystemV => 0x00,
            Abi::HpUX => 0x01,
            Abi::NetBSD => 0x02,
            Abi::Linux => 0x03,
            Abi::GnuHurd => 0x04,
            Abi::Solaris => 0x06,
            Abi::AIX => 0x07,
            Abi::IRIX => 0x08,
            Abi::FreeBSD => 0x09,
            Abi::Tru64 => 0x0A,
            Abi::Novell => 0x0B,
            Abi::OpenBSD => 0x0C,
            Abi::OpenVMS => 0x0D,
            Abi::NonStop => 0x0E,
            Abi::AROS => 0x0F,
            Abi::FenixOS => 0x10,
            Abi::Nuxi => 0x11,
            Abi::Stratus => 0x12,
            Abi::Unknown(v) => v,
        }
    }

    pub fn from_raw(v: u8) -> (r: Abi)
        ensures
            r == Abi::spec_from_raw(v),
    {
        match v {
            0x00 => Abi::SystemV,
            0x01 => Abi::HpUX,
            0x02 => Abi::NetBSD,
            0x03 => Abi::Linux,
            0x04 => Abi::GnuHurd,
            0x06 => Abi::Solaris,
            0x07 => Abi::AIX,
            0x08 => Abi::IRIX,
            0x09 => Abi::FreeBSD,
            0x0A => Abi::Tru64,
            0x0B => Abi::Novell,
            0x0C => Abi::OpenBSD,
            0x0D => Abi::OpenVMS,
            0x0E => Abi::NonStop,
            0x0F => Abi::AROS,
            0x10 => Abi::FenixOS,
            0x11 => Abi::Nuxi,
            0x12 => Abi::Stratus,
            _ => Abi::Unknown(v),
        }
    }
}

/// Kind of object file.
#[derive(Debug, Clone, Copy, PartialEq, Eq, Structural)]
pub enum BinType {
    REL,
    EXEC,
    DYN,
    CORE,
    LOOS,
    HIOS,
    LOPROC,
    HIPROC,
    /// A value that no variant names.
    Unknown(u16),
}

impl BinType {
    /// The variant that the raw value `v` names.
    pub open spec fn spec_from_raw(v: u16) -> BinType {
        match v {
            0x0001 => BinType::REL,
            0x0002 => BinType::EXEC,
            0x0003 => BinType::DYN,
            0x0004 => BinType::CORE,
            0xFE00 => BinType::LOOS,
            0xFEFF => BinType::HIOS,
            0xFF00 => BinType::LOPROC,
            0xFFFF => BinType::HIPROC,
            _ => BinType::Unknown(v),
        }
    }

    /// The raw value that stands for `self` in a file.
    pub open spec fn spec_to_raw(self) -> u16 {
        match self {
            BinType::REL => 0x0001,
            BinType::EXEC => 0x0002,
            BinType::DYN => 0x0003,
            BinType::CORE => 0x0004,
            BinType::LOOS => 0xFE00,
            BinType::HIOS => 0xFEFF,
            BinType::LOPROC => 0xFF00,
            BinType::HIPROC => 0xFFFF,
            BinType::Unknown(v) => v,
        }
    }

    pub fn from_raw(v: u16) -> (r: BinType)
        ensures
            r == BinType::spec_from_raw(v),
    {
        match v {
            0x0001 => BinType::REL,
            0x0002 => BinType::EXEC,
            0x0003 => BinType::DYN,
            0x0004 => BinType::CORE,
            0xFE00 => BinType::LOOS,
            0xFEFF => BinType::HIOS,
            0xFF00 => BinType::LOPROC,
            0xFFFF => BinType::HIPROC,
            _ => BinType::Unknown(v),
        }
    }
}

/// Target instruction set.
#[derive(Debug, Clone, Copy, PartialEq, Eq, Structural)]
pub enum Machine {
    X86,
    AMD64,
    /// A value that no variant names.
    Unknown(u16),
}

impl Machine {
    /// The variant that the raw value `v` names.
    pub open spec fn spec_from_raw(v: u16) -> Machine {
        match v {
            0x03 => Machine::X86,
            0x3E => Machine::AMD64,
            _ => Machine::Unknown(v),
        }
    }

    /// The raw value that stands for `self` in a file.
    pub open spec fn spec_to_raw(self) -> u16 {
        match self {
            Machine::X86 => 0x03,
            Machine::AMD64 => 0x3E,
            Machine::Unknown(v) => v,
        }
    }

    pub fn from_raw(v: u16) -> (r: Machine)
        ensures
            r == Machine::spec_from_raw(v),
    {
        match v {
            0x03 => Machine::X86,
            0x3E => Machine::AMD64,
            _ => Machine::Unknown(v),
        }
    }
}

} // verus!
