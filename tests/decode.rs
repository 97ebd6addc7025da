use elf_parser::elf_header;
use elf_parser::field_reader::read_uint;
use elf_parser::program_header;
use elf_parser::section_header;
use elf_parser::string_table::read_name;
use elf_parser::tables::{
    entry_offset, parse_program_headers, parse_section_headers, string_table_offset,
};
use elf_parser::{
    parse_args, run, Abi, BinType, Class, DecodeError, Endian, Header, Machine, PFlags, PType,
    SFlags, SType,
};
use elf_parser::shdr_enums::{SHF_ALLOC, SHF_EXECINSTR, SHF_MASKOS, SHF_WRITE};

/// Writes `v` in `width` bytes at `off`, growing the buffer as needed.
fn put(buf: &mut Vec<u8>, off: usize, v: u64, width: usize, big: bool) {
    if buf.len() < off + width {
        buf.resize(off + width, 0);
    }
    for i in 0..width {
        let byte = ((v >> (8 * i)) & 0xff) as u8;
        let at = if big { off + width - 1 - i } else { off + i };
        buf[at] = byte;
    }
}

struct Fields {
    entry: u64,
    phoff: u64,
    shoff: u64,
    phentsize: u16,
    phnum: u16,
    shentsize: u16,
    shnum: u16,
    shstrndx: u16,
}

/// A file header of the given class and byte order that holds `f`.
fn header_bytes(is64: bool, big: bool, f: &Fields) -> Vec<u8> {
    let w = if is64 { 8 } else { 4 };
    let mut b = vec![0x7f, b'E', b'L', b'F'];
    b.push(if is64 { 2 } else { 1 });
    b.push(if big { 2 } else { 1 });
    b.push(1); // version
    b.push(3); // Linux
    b.push(0); // ABI version
    b.resize(16, 0);
    put(&mut b, 0x10, 2, 2, big); // EXEC
    put(&mut b, 0x12, if is64 { 0x3e } else { 0x03 }, 2, big);
    put(&mut b, 0x14, 1, 4, big);
    put(&mut b, 0x18, f.entry, w, big);
    put(&mut b, 0x18 + w, f.phoff, w, big);
    put(&mut b, 0x18 + 2 * w, f.shoff, w, big);
    put(&mut b, 0x18 + 3 * w, 0, 4, big);
    put(&mut b, 0x1c + 3 * w, (0x28 + 3 * w) as u64, 2, big);
    put(&mut b, 0x1e + 3 * w, f.phentsize as u64, 2, big);
    put(&mut b, 0x20 + 3 * w, f.phnum as u64, 2, big);
    put(&mut b, 0x22 + 3 * w, f.shentsize as u64, 2, big);
    put(&mut b, 0x24 + 3 * w, f.shnum as u64, 2, big);
    put(&mut b, 0x26 + 3 * w, f.shstrndx as u64, 2, big);
    b
}

fn scenario_fields(is64: bool) -> Fields {
    Fields {
        entry: 0x401000,
        phoff: if is64 { 0x40 } else { 0x34 },
        shoff: 0,
        phentsize: if is64 { 0x38 } else { 0x20 },
        phnum: 1,
        shentsize: 0,
        shnum: 0,
        shstrndx: 0,
    }
}

fn check_round_trip(is64: bool, big: bool) {
    let f = Fields {
        entry: 0x0804_8000,
        phoff: 0x34,
        shoff: 0x1234,
        phentsize: 0x20,
        phnum: 9,
        shentsize: 0x28,
        shnum: 30,
        shstrndx: 29,
    };
    let b = header_bytes(is64, big, &f);
    let h = elf_header::parse(&b).unwrap();
    assert_eq!(h.class, if is64 { Class::X64Bit } else { Class::X32Bit });
    assert_eq!(h.endian, if big { Endian::Big } else { Endian::Little });
    assert_eq!(h.version, 1);
    assert_eq!(h.abi, Abi::Linux);
    assert_eq!(h.abi_version, 0);
    assert_eq!(h.bin_type, BinType::EXEC);
    assert_eq!(h.machine, if is64 { Machine::AMD64 } else { Machine::X86 });
    assert_eq!(h.misc_version, 1);
    assert_eq!(h.entry_point, f.entry);
    assert_eq!(h.phdr_offset, f.phoff);
    assert_eq!(h.shdr_offset, f.shoff);
    assert_eq!(h.flags, 0);
    assert_eq!(h.hdr_sz, if is64 { 64 } else { 52 });
    assert_eq!(h.phdr_entry_sz, f.phentsize);
    assert_eq!(h.phdr_entries, f.phnum);
    assert_eq!(h.shdr_entry_sz, f.shentsize);
    assert_eq!(h.shdr_entries, f.shnum);
    assert_eq!(h.shstr_idx, f.shstrndx);
}

#[test]
fn header_round_trip_little_64() {
    check_round_trip(true, false);
}

#[test]
fn header_round_trip_big_64() {
    check_round_trip(true, true);
}

#[test]
fn header_round_trip_little_32() {
    check_round_trip(false, false);
}

#[test]
fn header_round_trip_big_32() {
    check_round_trip(false, true);
}

#[test]
fn header_addresses_take_four_bytes_in_32_bit_files() {
    let f = scenario_fields(false);
    let b = header_bytes(false, false, &f);
    let h = elf_header::parse(&b).unwrap();
    // The byte right after the entry point is the low byte of the program
    // header offset; an eight-byte read would fold it into the entry point.
    assert_eq!(b[0x1c], 0x34);
    assert_eq!(h.entry_point, 0x401000);
    assert_eq!(h.phdr_offset, 0x34);
}

#[test]
fn header_addresses_take_eight_bytes_in_64_bit_files() {
    let mut f = scenario_fields(true);
    f.entry = 0x1122_3344_5566_7788;
    let b = header_bytes(true, true, &f);
    let h = elf_header::parse(&b).unwrap();
    assert_eq!(h.entry_point, 0x1122_3344_5566_7788);
    assert_eq!(h.phdr_offset, 0x40);
}

#[test]
fn program_header_flags_composites() {
    assert_eq!(PFlags::from_raw(5), PFlags { read: true, write: false, execute: true });
    assert_eq!(PFlags::from_raw(6), PFlags { read: true, write: true, execute: false });
    assert_eq!(PFlags::from_raw(7), PFlags { read: true, write: true, execute: true });
    assert_eq!(PFlags::from_raw(0), PFlags { read: false, write: false, execute: false });
    assert!(PFlags::from_raw(0).is_empty());
    assert!(!PFlags::from_raw(4).is_empty());
}

#[test]
fn program_header_flags_single_bits() {
    assert_eq!(PFlags::from_raw(1), PFlags { read: false, write: false, execute: true });
    assert_eq!(PFlags::from_raw(2), PFlags { read: false, write: true, execute: false });
    assert_eq!(PFlags::from_raw(4), PFlags { read: true, write: false, execute: false });
    assert_eq!(PFlags::from_raw(0xf000_0003), PFlags { read: false, write: true, execute: true });
}

#[test]
fn name_offset_zero_is_empty() {
    let mut b = vec![0xaa; 0x20];
    b[0x10] = 0;
    b[0x11] = b'a';
    b[0x12] = 0;
    assert_eq!(read_name(&b, 0x10, 0), Ok(String::new()));
}

#[test]
fn name_runs_to_first_zero_byte() {
    let mut b = vec![0u8; 0x10];
    b.extend_from_slice(b"\0.text\0.data\0");
    assert_eq!(read_name(&b, 0x10, 1), Ok(String::from(".text")));
    assert_eq!(read_name(&b, 0x10, 7), Ok(String::from(".data")));
    assert_eq!(read_name(&b, 0x10, 3), Ok(String::from("ext")));
}

#[test]
fn name_without_terminator_is_bounds_error() {
    let b = b"\0abc".to_vec();
    assert_eq!(read_name(&b, 0, 1), Err(DecodeError::Bounds));
    assert_eq!(read_name(&b, 0, 4), Err(DecodeError::Bounds));
    assert_eq!(read_name(&b, 10, 0), Err(DecodeError::Bounds));
    assert_eq!(read_name(&b, u64::MAX, u32::MAX), Err(DecodeError::Bounds));
}

#[test]
fn bad_magic_is_format_error() {
    let mut b = header_bytes(true, false, &scenario_fields(true));
    b[0] = 0x7e;
    assert_eq!(elf_header::parse(&b), Err(DecodeError::Format));
    let b = b"MZ\x90\x00 this is no ELF file at all, and long enough".to_vec();
    assert_eq!(elf_header::parse(&b), Err(DecodeError::Format));
}

#[test]
fn unknown_class_or_byte_order_is_identity_error() {
    let mut b = header_bytes(true, false, &scenario_fields(true));
    b[4] = 3;
    assert_eq!(elf_header::parse(&b), Err(DecodeError::Identity));
    let mut b = header_bytes(true, false, &scenario_fields(true));
    b[5] = 0;
    assert_eq!(elf_header::parse(&b), Err(DecodeError::Identity));
}

#[test]
fn truncated_header_is_bounds_error() {
    for is64 in [false, true] {
        let b = header_bytes(is64, true, &scenario_fields(is64));
        let full = b.len();
        assert_eq!(full, if is64 { 64 } else { 52 });
        for k in 0..full {
            let t = b[..k].to_vec();
            assert_eq!(elf_header::parse(&t), Err(DecodeError::Bounds), "length {}", k);
        }
        assert!(elf_header::parse(&b).is_ok());
    }
}

/// Scenario: a little-endian 64-bit file with one program header at 0x40.
#[test]
fn scenario_little_endian_64_bit() {
    let f = scenario_fields(true);
    let mut b = header_bytes(true, false, &f);
    assert_eq!(b.len(), 0x40);
    put(&mut b, 0x40, 1, 4, false); // LOAD
    put(&mut b, 0x44, 5, 4, false); // R+X
    put(&mut b, 0x48, 0, 8, false);
    put(&mut b, 0x50, 0x400000, 8, false);
    put(&mut b, 0x58, 0x400000, 8, false);
    put(&mut b, 0x60, 0x1234, 8, false);
    put(&mut b, 0x68, 0x1234, 8, false);
    put(&mut b, 0x70, 0x1000, 8, false);
    let h = elf_header::parse(&b).unwrap();
    assert_eq!(h.entry_point, 0x401000);
    let ph = parse_program_headers(&b, &h).unwrap();
    assert_eq!(ph.len(), 1);
    let p = ph[0];
    assert_eq!(p.ptype, PType::LOAD);
    assert_eq!(p.pflags, PFlags { read: true, write: false, execute: true });
    assert_eq!(p.offset, 0);
    assert_eq!(p.vaddr, 0x400000);
    assert_eq!(p.paddr, 0x400000);
    assert_eq!(p.filesz, 0x1234);
    assert_eq!(p.memsz, 0x1234);
    assert_eq!(p.align, 0x1000);
    assert_eq!(program_header::parse(&b, 0x40, Class::X64Bit, Endian::Little), Ok(p));
}

/// Scenario: the same logical header, big-endian and 32-bit.
#[test]
fn scenario_big_endian_32_bit() {
    let a = elf_header::parse(&header_bytes(true, false, &scenario_fields(true))).unwrap();
    let f = scenario_fields(false);
    let mut b = header_bytes(false, true, &f);
    assert_eq!(b.len(), 0x34);
    put(&mut b, 0x34, 1, 4, true); // LOAD
    put(&mut b, 0x38, 0, 4, true);
    put(&mut b, 0x3c, 0x400000, 4, true);
    put(&mut b, 0x40, 0x400000, 4, true);
    put(&mut b, 0x44, 0x1234, 4, true);
    put(&mut b, 0x48, 0x1234, 4, true);
    put(&mut b, 0x4c, 5, 4, true); // flags after the memory size
    put(&mut b, 0x50, 0x1000, 4, true);
    let h = elf_header::parse(&b).unwrap();
    assert_eq!(h.entry_point, a.entry_point);
    assert_eq!(h.phdr_entries, a.phdr_entries);
    assert_eq!(h.shdr_entries, a.shdr_entries);
    assert_eq!(h.class, Class::X32Bit);
    assert_eq!(h.endian, Endian::Big);
    let ph = parse_program_headers(&b, &h).unwrap();
    assert_eq!(ph.len(), 1);
    assert_eq!(ph[0].ptype, PType::LOAD);
    assert_eq!(ph[0].pflags, PFlags { read: true, write: false, execute: true });
    assert_eq!(ph[0].vaddr, 0x400000);
    assert_eq!(ph[0].filesz, 0x1234);
    assert_eq!(ph[0].align, 0x1000);
}

/// A 64-bit little-endian file with a null section, `.text` and the
/// section-name string table at 0x1000.
fn sections_file() -> Vec<u8> {
    let f = Fields {
        entry: 0,
        phoff: 0,
        shoff: 0x200,
        phentsize: 0,
        phnum: 0,
        shentsize: 0x40,
        shnum: 3,
        shstrndx: 2,
    };
    let mut b = header_bytes(true, false, &f);
    b.resize(0x1000, 0);
    b.extend_from_slice(b"\0.shs\0.text\0");
    // entry 1: .text
    let e1 = 0x240;
    put(&mut b, e1, 6, 4, false);
    put(&mut b, e1 + 4, 1, 4, false); // PROGBITS
    put(&mut b, e1 + 8, 6, 8, false); // ALLOC | EXECINSTR
    put(&mut b, e1 + 16, 0x401000, 8, false);
    put(&mut b, e1 + 24, 0x1000, 8, false);
    put(&mut b, e1 + 32, 0x20, 8, false);
    put(&mut b, e1 + 40, 0, 4, false);
    put(&mut b, e1 + 44, 0, 4, false);
    put(&mut b, e1 + 48, 16, 8, false);
    put(&mut b, e1 + 56, 0, 8, false);
    // entry 2: the string table
    let e2 = 0x280;
    put(&mut b, e2, 1, 4, false);
    put(&mut b, e2 + 4, 3, 4, false); // STRTAB
    put(&mut b, e2 + 24, 0x1000, 8, false);
    put(&mut b, e2 + 32, 12, 8, false);
    put(&mut b, e2 + 48, 1, 8, false);
    b
}

/// Scenario: names are read from the string table's own file offset.
#[test]
fn scenario_section_names() {
    let mut b = sections_file();
    // nameOffset 5 of a table at 0x1000 reads ".text" at 0x1005.
    put(&mut b, 0x240, 5, 4, false);
    b[0x1005..0x100b].copy_from_slice(b".text\0");
    let h = elf_header::parse(&b).unwrap();
    assert_eq!(string_table_offset(&b, &h), Ok(0x1000));
    let s = section_header::parse(&b, 0x240, Class::X64Bit, Endian::Little, 0x1000).unwrap();
    assert_eq!(s.sname, ".text");
    let all = parse_section_headers(&b, &h).unwrap();
    assert_eq!(all.len(), 3);
    assert_eq!(all[0].sname, "");
    assert_eq!(all[0].stype, SType::NULL);
    assert_eq!(all[1].sname, ".text");
    assert_eq!(all[2].stype, SType::STRTAB);
}

#[test]
fn section_header_fields() {
    let b = sections_file();
    let h = elf_header::parse(&b).unwrap();
    let all = parse_section_headers(&b, &h).unwrap();
    let t = &all[1];
    assert_eq!(t.sname, ".text");
    assert_eq!(t.stype, SType::PROGBITS);
    assert_eq!(t.sflags, SFlags { bits: 6 });
    assert!(t.sflags.contains(SHF_ALLOC));
    assert!(t.sflags.contains(SHF_EXECINSTR));
    assert!(t.sflags.contains(SHF_ALLOC | SHF_EXECINSTR));
    assert!(!t.sflags.contains(SHF_WRITE));
    assert_eq!(t.vaddr, 0x401000);
    assert_eq!(t.offset, 0x1000);
    assert_eq!(t.size, 0x20);
    assert_eq!(t.align, 16);
    assert_eq!(all[2].sname, ".shs");
    assert_eq!(all[2].size, 12);
}

#[test]
fn section_header_32_bit_layout() {
    let mut b = vec![0u8; 0x100];
    // a 32-bit big-endian entry at 0x10, string table at 0x80
    b[0x80..0x86].copy_from_slice(b"\0.bss\0");
    put(&mut b, 0x10, 1, 4, true);
    put(&mut b, 0x14, 8, 4, true); // NOBITS
    put(&mut b, 0x18, 3, 4, true); // WRITE | ALLOC
    put(&mut b, 0x1c, 0x2000, 4, true);
    put(&mut b, 0x20, 0x300, 4, true);
    put(&mut b, 0x24, 0x40, 4, true);
    put(&mut b, 0x28, 7, 4, true);
    put(&mut b, 0x2c, 9, 4, true);
    put(&mut b, 0x30, 32, 4, true);
    put(&mut b, 0x34, 4, 4, true);
    let s = section_header::parse(&b, 0x10, Class::X32Bit, Endian::Big, 0x80).unwrap();
    assert_eq!(s.sname, ".bss");
    assert_eq!(s.stype, SType::NOBITS);
    assert_eq!(s.sflags.bits, 3);
    assert_eq!(s.vaddr, 0x2000);
    assert_eq!(s.offset, 0x300);
    assert_eq!(s.size, 0x40);
    assert_eq!(s.link, 7);
    assert_eq!(s.info, 9);
    assert_eq!(s.align, 32);
    assert_eq!(s.entsize, 4);
    // the entry spans 40 bytes: one byte short of that is a bounds error
    let t = b[..0x10 + 39].to_vec();
    assert_eq!(
        section_header::parse(&t, 0x10, Class::X32Bit, Endian::Big, 0x80),
        Err(DecodeError::Bounds)
    );
}

#[test]
fn section_table_bounds_error_keeps_header() {
    let b = sections_file();
    let cut = b[..0x2a0].to_vec();
    let args = parse_args(String::from("f"), true, true);
    let rep = run(&cut, &args).unwrap();
    assert_eq!(rep.header.shdr_entries, 3);
    assert_eq!(rep.program_headers, Some(Ok(vec![])));
    assert_eq!(rep.section_headers, Some(Err(DecodeError::Bounds)));
}

#[test]
fn run_decodes_only_what_is_asked() {
    let b = sections_file();
    let rep = run(&b, &parse_args(String::from("a.out"), false, false)).unwrap();
    assert_eq!(rep.program_headers, None);
    assert_eq!(rep.section_headers, None);
    let rep = run(&b, &parse_args(String::from("a.out"), false, true)).unwrap();
    assert_eq!(rep.program_headers, None);
    assert_eq!(rep.section_headers.unwrap().unwrap().len(), 3);
    assert_eq!(run(&b[..3].to_vec(), &parse_args(String::from("x"), true, true)), Err(DecodeError::Bounds));
}

#[test]
fn parse_args_keeps_values() {
    let a = parse_args(String::from("/bin/true"), true, false);
    assert_eq!(a.file_path, "/bin/true");
    assert!(a.program_header);
    assert!(!a.section_header);
}

#[test]
fn program_header_table_out_of_bounds() {
    let mut f = scenario_fields(true);
    f.phnum = 2;
    let mut b = header_bytes(true, false, &f);
    b.resize(0x40 + 0x38 + 0x20, 0);
    let h = elf_header::parse(&b).unwrap();
    assert_eq!(parse_program_headers(&b, &h), Err(DecodeError::Bounds));
    b.resize(0x40 + 2 * 0x38, 0);
    assert_eq!(parse_program_headers(&b, &h).unwrap().len(), 2);
    assert_eq!(
        program_header::parse(&b, u64::MAX, Class::X64Bit, Endian::Little),
        Err(DecodeError::Bounds)
    );
}

#[test]
fn entry_offsets() {
    assert_eq!(entry_offset(0x40, 3, 0x38), Some(0x40 + 3 * 0x38));
    assert_eq!(entry_offset(0, 0xffff, 0xffff), Some(0xffff * 0xffff));
    assert_eq!(entry_offset(u64::MAX, 1, 1), None);
    assert_eq!(entry_offset(u64::MAX, 0, 0x40), Some(u64::MAX));
}

#[test]
fn string_table_offset_out_of_bounds() {
    let b = sections_file();
    let h = elf_header::parse(&b).unwrap();
    let cut = b[..0x280 + 24 + 7].to_vec();
    assert_eq!(string_table_offset(&cut, &h), Err(DecodeError::Bounds));
    let cut = b[..0x280 + 32].to_vec();
    assert_eq!(string_table_offset(&cut, &h), Ok(0x1000));
}

#[test]
fn read_uint_each_width_and_order() {
    let b = vec![0x01, 0x02, 0x03, 0x04, 0x05, 0x06, 0x07, 0x08, 0x09];
    assert_eq!(read_uint(&b, 1, 2, Endian::Little), Ok(0x0302));
    assert_eq!(read_uint(&b, 1, 2, Endian::Big), Ok(0x0203));
    assert_eq!(read_uint(&b, 0, 4, Endian::Little), Ok(0x0403_0201));
    assert_eq!(read_uint(&b, 0, 4, Endian::Big), Ok(0x0102_0304));
    assert_eq!(read_uint(&b, 1, 8, Endian::Little), Ok(0x0908_0706_0504_0302));
    assert_eq!(read_uint(&b, 1, 8, Endian::Big), Ok(0x0203_0405_0607_0809));
    assert_eq!(read_uint(&b, 2, 8, Endian::Big), Err(DecodeError::Bounds));
    assert_eq!(read_uint(&b, 8, 2, Endian::Little), Err(DecodeError::Bounds));
    assert_eq!(read_uint(&b, usize::MAX, 2, Endian::Little), Err(DecodeError::Bounds));
    assert_eq!(read_uint(&b, 7, 2, Endian::Little), Ok(0x0908));
}

#[test]
fn enumerations_keep_unknown_values() {
    assert_eq!(Abi::from_raw(0x00), Abi::SystemV);
    assert_eq!(Abi::from_raw(0x09), Abi::FreeBSD);
    assert_eq!(Abi::from_raw(0x12), Abi::Stratus);
    assert_eq!(Abi::from_raw(0x05), Abi::Unknown(0x05));
    assert_eq!(BinType::from_raw(3), BinType::DYN);
    assert_eq!(BinType::from_raw(0xfeff), BinType::HIOS);
    assert_eq!(BinType::from_raw(0), BinType::Unknown(0));
    assert_eq!(Machine::from_raw(0x3e), Machine::AMD64);
    assert_eq!(Machine::from_raw(0xb7), Machine::Unknown(0xb7));
    assert_eq!(PType::from_raw(0), PType::NULL);
    assert_eq!(PType::from_raw(0x7fff_ffff), PType::HIPROC);
    assert_eq!(PType::from_raw(0x6474_e551), PType::GNU_STACK);
    assert_eq!(PType::from_raw(8), PType::Unknown(8));
    assert_eq!(SType::from_raw(0x0b), SType::DYNSYM);
    assert_eq!(SType::from_raw(0x13), SType::NUM);
    assert_eq!(SType::from_raw(0x0c), SType::Unknown(0x0c));
    assert_eq!(Class::from_raw(1), Some(Class::X32Bit));
    assert_eq!(Class::from_raw(0), None);
    assert_eq!(Endian::from_raw(2), Some(Endian::Big));
    assert_eq!(Endian::from_raw(3), None);
}

#[test]
fn section_flag_masks() {
    let f = SFlags::from_raw(0x0ff0_0001);
    assert!(f.contains(SHF_MASKOS));
    assert!(f.contains(SHF_WRITE));
    assert!(!SFlags::from_raw(0x0010_0000).contains(SHF_MASKOS));
    assert!(SFlags::from_raw(0).is_empty());
}

#[test]
fn header_with_unknown_codes() {
    let mut b = header_bytes(false, false, &scenario_fields(false));
    b[7] = 0x61;
    put(&mut b, 0x10, 0x1234, 2, false);
    put(&mut b, 0x12, 0xb7, 2, false);
    let h: Header = elf_header::parse(&b).unwrap();
    assert_eq!(h.abi, Abi::Unknown(0x61));
    assert_eq!(h.bin_type, BinType::Unknown(0x1234));
    assert_eq!(h.machine, Machine::Unknown(0xb7));
}
