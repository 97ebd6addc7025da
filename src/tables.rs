//! Whole tables: every program header entry, and every section header entry
//! named through the section-name string table.
use vstd::prelude::*;
use crate::elf_header::Header;
use crate::error::DecodeError;
use crate::field_reader::{in_bounds, read_word_at, word};
use crate::header_enums::word_width;
use crate::program_header::{self, decode_phdr, PHeader};
use crate::section_header::{self, shdr_decodes, shdr_matches, SHeader};

verus! {

/// Where entry `index` of a table at `table` with entries of `entry_size`
/// bytes starts.
pub open spec fn entry_pos(table: u64, index: int, entry_size: u16) -> int {
    table + index * entry_size
}

/// The start of entry `index`, or none where it does not fit in 64 bits
/// (and so lies past the end of any buffer).
pub fn entry_offset(table: u64, index: u16, entry_size: u16) -> (r: Option<u64>)
    ensures
        r matches Some(o) ==> o == entry_pos(table, index as int, entry_size),
        r is None ==> entry_pos(table, index as int, entry_size) > u64::MAX,
{
    assert(index * entry_size <= u16::MAX * u16::MAX) by (nonlinear_arith)
        requires
            index <= u16::MAX,
            entry_size <= u16::MAX,
    {
    }
    let step = index as u64 * entry_size as u64;
    if table > u64::MAX - step {
        None
    } else {
        Some(table + step)
    }
}

/// Whether every entry of the program header table that `h` describes decodes.
pub open spec fn phdrs_decode(b: Seq<u8>, h: Header) -> bool {
    forall|i: int|
        0 <= i < h.phdr_entries ==> (#[trigger] decode_phdr(
            b,
            entry_pos(h.phdr_offset, i, h.phdr_entry_sz),
            h.class,
            h.endian,
        )) is Ok
}

/// Whether `r` is what decoding the program header table that `h` describes
/// gives: every entry, in table order, or a bounds error where one does not
/// decode.
pub open spec fn phdr_table_result(b: Seq<u8>, h: Header, r: Result<Vec<PHeader>, DecodeError>) -> bool {
    &&& r is Ok <==> phdrs_decode(b, h)
    &&& r matches Ok(v) ==> v@.len() == h.phdr_entries && forall|i: int|
        0 <= i < v@.len() ==> Ok::<PHeader, DecodeError>(#[trigger] v@[i]) == decode_phdr(
            b,
            entry_pos(h.phdr_offset, i, h.phdr_entry_sz),
            h.class,
            h.endian,
        )
    &&& r matches Err(e) ==> e == DecodeError::Bounds
}

/// Decodes the program header table that `header` describes, in table order.
pub fn parse_program_headers(content: &Vec<u8>, header: &Header) -> (r: Result<
    Vec<PHeader>,
    DecodeError,
>)
    ensures
        phdr_table_result(content@, *header, r),
{
    let mut v: Vec<PHeader> = Vec::new();
    let mut i: u16 = 0;
    while i < header.phdr_entries
        invariant
            i <= header.phdr_entries,
            v@.len() == i,
            forall|j: int|
                0 <= j < i ==> Ok::<PHeader, DecodeError>(#[trigger] v@[j]) == decode_phdr(
                    content@,
                    entry_pos(header.phdr_offset, j, header.phdr_entry_sz),
                    header.class,
                    header.endian,
                ),
        decreases header.phdr_entries - i,
    {
        let at = match entry_offset(header.phdr_offset, i, header.phdr_entry_sz) {
            Some(o) => o,
            None => {
                let len = content.len() as u64;
                assert(content@.len() == len);
                assert(decode_phdr(
                    content@,
                    entry_pos(header.phdr_offset, i as int, header.phdr_entry_sz),
                    header.class,
                    header.endian,
                ) is Err);
                return Err(DecodeError::Bounds);
            },
        };
        match program_header::parse(content, at, header.class, header.endian) {
            Ok(p) => v.push(p),
            Err(e) => return Err(e),
        }
        i = i + 1;
    }
    proof {
        assert forall|j: int| 0 <= j < header.phdr_entries implies (#[trigger] decode_phdr(
            content@,
            entry_pos(header.phdr_offset, j, header.phdr_entry_sz),
            header.class,
            header.endian,
        )) is Ok by {
            assert(Ok::<PHeader, DecodeError>(v@[j]) == decode_phdr(
                content@,
                entry_pos(header.phdr_offset, j, header.phdr_entry_sz),
                header.class,
                header.endian,
            ));
        }
    }
    Ok(v)
}

/// Where the file-offset field of the section-name string table's own
/// section header entry starts.
pub open spec fn strtab_offset_pos(h: Header) -> int {
    entry_pos(h.shdr_offset, h.shstr_idx as int, h.shdr_entry_sz) + 8 + 2 * word_width(h.class)
}

/// The file offset of the section-name string table, read from its own
/// section header entry; none where that field lies outside `b`.
pub open spec fn strtab_base(b: Seq<u8>, h: Header) -> Option<u64> {
    if in_bounds(b, strtab_offset_pos(h), word_width(h.class)) {
        Some(word(b, strtab_offset_pos(h), h.class, h.endian))
    } else {
        None
    }
}

/// Reads the file offset of the section-name string table from the section
/// header entry at index `header.shstr_idx`, whose own name is not resolved.
pub fn string_table_offset(content: &Vec<u8>, header: &Header) -> (r: Result<u64, DecodeError>)
    ensures
        match strtab_base(content@, *header) {
            Some(o) => r == Ok::<u64, DecodeError>(o),
            None => r == Err::<u64, DecodeError>(DecodeError::Bounds),
        },
{
    let w = header.class.width();
    let len = content.len() as u64;
    let at = match entry_offset(header.shdr_offset, header.shstr_idx, header.shdr_entry_sz) {
        Some(o) => o,
        None => return Err(DecodeError::Bounds),
    };
    let field_len = (8 + 3 * w) as u64;
    if at > len || len - at < field_len {
        return Err(DecodeError::Bounds);
    }
    Ok(read_word_at(content, at as usize + 8 + 2 * w, header.class, header.endian))
}

/// Whether the section-name string table's offset can be read and every
/// entry of the section header table that `h` describes decodes.
pub open spec fn shdrs_decode(b: Seq<u8>, h: Header) -> bool {
    &&& strtab_base(b, h) is Some
    &&& forall|i: int|
        0 <= i < h.shdr_entries ==> #[trigger] shdr_decodes(
            b,
            entry_pos(h.shdr_offset, i, h.shdr_entry_sz),
            h.class,
            h.endian,
            strtab_base(b, h)->Some_0 as int,
        )
}

/// Whether `r` is what decoding the section header table that `h` describes
/// gives: every entry, in table order, each named through the section-name
/// string table, or a bounds error where that is not possible.
pub open spec fn shdr_table_result(b: Seq<u8>, h: Header, r: Result<Vec<SHeader>, DecodeError>) -> bool {
    &&& r is Ok <==> shdrs_decode(b, h)
    &&& r matches Ok(v) ==> v@.len() == h.shdr_entries && forall|i: int|
        0 <= i < v@.len() ==> shdr_matches(
            #[trigger] v@[i],
            b,
            entry_pos(h.shdr_offset, i, h.shdr_entry_sz),
            h.class,
            h.endian,
            strtab_base(b, h)->Some_0 as int,
        )
    &&& r matches Err(e) ==> e == DecodeError::Bounds
}

proof fn lemma_one_entry_fails(b: Seq<u8>, h: Header, base: u64, k: int)
    requires
        strtab_base(b, h) == Some(base),
        0 <= k < h.shdr_entries,
        !shdr_decodes(
            b,
            entry_pos(h.shdr_offset, k, h.shdr_entry_sz),
            h.class,
            h.endian,
            base as int,
        ),
    ensures
        !shdrs_decode(b, h),
{
    assert(strtab_base(b, h)->Some_0 == base);
}

/// Decodes the section header table that `header` describes, in table order,
/// each entry named through the section-name string table.
pub fn parse_section_headers(content: &Vec<u8>, header: &Header) -> (r: Result<
    Vec<SHeader>,
    DecodeError,
>)
    ensures
        shdr_table_result(content@, *header, r),
{
    let base = match string_table_offset(content, header) {
        Ok(o) => o,
        Err(e) => return Err(e),
    };
    let mut v: Vec<SHeader> = Vec::new();
    let mut i: u16 = 0;
    while i < header.shdr_entries
        invariant
            strtab_base(content@, *header) == Some(base),
            i <= header.shdr_entries,
            v@.len() == i,
            forall|j: int|
                0 <= j < i ==> shdr_matches(
                    #[trigger] v@[j],
                    content@,
                    entry_pos(header.shdr_offset, j, header.shdr_entry_sz),
                    header.class,
                    header.endian,
                    base as int,
                ),
            forall|j: int|
                0 <= j < i ==> #[trigger] shdr_decodes(
                    content@,
                    entry_pos(header.shdr_offset, j, header.shdr_entry_sz),
                    header.class,
                    header.endian,
                    base as int,
                ),
        decreases header.shdr_entries - i,
    {
        let at = match entry_offset(header.shdr_offset, i, header.shdr_entry_sz) {
            Some(o) => o,
            None => {
                let len = content.len() as u64;
                assert(content@.len() == len);
                assert(!shdr_decodes(
                    content@,
                    entry_pos(header.shdr_offset, i as int, header.shdr_entry_sz),
                    header.class,
                    header.endian,
                    base as int,
                ));
                proof {
                    lemma_one_entry_fails(content@, *header, base, i as int);
                }
                return Err(DecodeError::Bounds);
            },
        };
        match section_header::parse(content, at, header.class, header.endian, base) {
            Ok(sh) => v.push(sh),
            Err(e) => {
                assert(!shdr_decodes(
                    content@,
                    entry_pos(header.shdr_offset, i as int, header.shdr_entry_sz),
                    header.class,
                    header.endian,
                    base as int,
                ));
                proof {
                    lemma_one_entry_fails(content@, *header, base, i as int);
                }
                return Err(e);
            },
        }
        i = i + 1;
    }
    Ok(v)
}

} // verus!
