//! Properties that relate the decoders to one another and to the bytes.
use vstd::prelude::*;
use crate::elf_header::{decode_header, has_magic, header_size, Header};
use crate::error::DecodeError;
use crate::field_reader::{field, in_bounds, uint_be, uint_le, uint_of, word};
use crate::program_header::{decode_phdr, spec_phdr_layout};
use crate::section_header::{shdr_matches, shdr_size, SHeader};
use crate::string_table::{bytes_as_chars, name_at, terminates_at};
use crate::header_enums::{word_width, Abi, BinType, Class, Endian, Machine};

verus! {

/// 256 to the power `n`: one more than the largest value of `n` bytes.
pub open spec fn pow256(n: nat) -> nat
    decreases n,
{
    if n == 0 {
        1
    } else {
        256 * pow256((n - 1) as nat)
    }
}

/// The `n` bytes of `v`, least significant first.
pub open spec fn le_bytes(v: nat, n: nat) -> Seq<u8>
    decreases n,
{
    if n == 0 {
        Seq::empty()
    } else {
        seq![(v % 256) as u8] + le_bytes(v / 256, (n - 1) as nat)
    }
}

/// The `n` bytes of `v`, most significant first.
pub open spec fn be_bytes(v: nat, n: nat) -> Seq<u8>
    decreases n,
{
    if n == 0 {
        Seq::empty()
    } else {
        be_bytes(v / 256, (n - 1) as nat).push((v % 256) as u8)
    }
}

/// The `n` bytes of `v` in byte order `endian`.
pub open spec fn bytes_of(v: nat, n: nat, endian: Endian) -> Seq<u8> {
    match endian {
        Endian::Little => le_bytes(v, n),
        Endian::Big => be_bytes(v, n),
    }
}

proof fn lemma_div_256(v: nat, n: nat)
    requires
        n > 0,
        v < pow256(n),
    ensures
        v / 256 < pow256((n - 1) as nat),
        v % 256 < 256,
        v == 256 * (v / 256) + v % 256,
{
    let p = pow256((n - 1) as nat);
    assert(v < 256 * p);
    assert(v / 256 < p) by (nonlinear_arith)
        requires
            v < 256 * p,
    {
    }
}

proof fn lemma_le_round_trip(v: nat, n: nat)
    requires
        v < pow256(n),
    ensures
        le_bytes(v, n).len() == n,
        uint_le(le_bytes(v, n)) == v,
    decreases n,
{
    if n > 0 {
        lemma_div_256(v, n);
        lemma_le_round_trip(v / 256, (n - 1) as nat);
        let s = le_bytes(v, n);
        assert(s.drop_first() =~= le_bytes(v / 256, (n - 1) as nat));
    }
}

proof fn lemma_be_round_trip(v: nat, n: nat)
    requires
        v < pow256(n),
    ensures
        be_bytes(v, n).len() == n,
        uint_be(be_bytes(v, n)) == v,
    decreases n,
{
    if n > 0 {
        lemma_div_256(v, n);
        lemma_be_round_trip(v / 256, (n - 1) as nat);
        let s = be_bytes(v, n);
        assert(s.drop_last() =~= be_bytes(v / 256, (n - 1) as nat));
    }
}

/// Encoding a value in `n` bytes and reading those bytes back, in either
/// byte order, gives the value again.
pub proof fn lemma_bytes_round_trip(v: nat, n: nat, endian: Endian)
    requires
        v < pow256(n),
    ensures
        bytes_of(v, n, endian).len() == n,
        uint_of(bytes_of(v, n, endian), endian) == v,
{
    lemma_le_round_trip(v, n);
    lemma_be_round_trip(v, n);
}

/// A value read from `s.len()` bytes, in either byte order, is below
/// `pow256(s.len())`.
pub proof fn lemma_uint_bound(s: Seq<u8>, endian: Endian)
    ensures
        uint_of(s, endian) < pow256(s.len()),
{
    lemma_le_bound(s);
    lemma_be_bound(s);
}

proof fn lemma_le_bound(s: Seq<u8>)
    ensures
        uint_le(s) < pow256(s.len()),
    decreases s.len(),
{
    if s.len() > 0 {
        lemma_le_bound(s.drop_first());
        let r = uint_le(s.drop_first());
        let p = pow256((s.len() - 1) as nat);
        let d = s[0] as nat;
        assert(d + 256 * r < 256 * p) by (nonlinear_arith)
            requires
                r < p,
                d < 256,
        {
        }
    }
}

proof fn lemma_be_bound(s: Seq<u8>)
    ensures
        uint_be(s) < pow256(s.len()),
    decreases s.len(),
{
    if s.len() > 0 {
        lemma_be_bound(s.drop_last());
        let r = uint_be(s.drop_last());
        let p = pow256((s.len() - 1) as nat);
        let d = s.last() as nat;
        assert(r * 256 + d < 256 * p) by (nonlinear_arith)
            requires
                r < p,
                d < 256,
        {
        }
    }
}

/// Whether `h` can be written as the bytes of a file header and read back
/// as itself: no enumerated field holds an `Unknown` value that a named
/// variant stands for, and each address fits in the width of the class.
pub open spec fn header_encodable(h: Header) -> bool {
    let w = word_width(h.class) as nat;
    &&& Abi::spec_from_raw(h.abi.spec_to_raw()) == h.abi
    &&& BinType::spec_from_raw(h.bin_type.spec_to_raw()) == h.bin_type
    &&& Machine::spec_from_raw(h.machine.spec_to_raw()) == h.machine
    &&& h.entry_point < pow256(w)
    &&& h.phdr_offset < pow256(w)
    &&& h.shdr_offset < pow256(w)
}

/// The bytes of a file header that holds `h`, the padding zeroed.
pub open spec fn encode_header(h: Header) -> Seq<u8> {
    let e = h.endian;
    let w = word_width(h.class) as nat;
    seq![
        0x7fu8,
        0x45u8,
        0x4cu8,
        0x46u8,
        h.class.spec_to_raw(),
        h.endian.spec_to_raw(),
        h.version,
        h.abi.spec_to_raw(),
        h.abi_version,
        0u8,
        0u8,
        0u8,
        0u8,
        0u8,
        0u8,
        0u8,
    ] + bytes_of(h.bin_type.spec_to_raw() as nat, 2, e) + bytes_of(
        h.machine.spec_to_raw() as nat,
        2,
        e,
    ) + bytes_of(h.misc_version as nat, 4, e) + bytes_of(h.entry_point as nat, w, e) + bytes_of(
        h.phdr_offset as nat,
        w,
        e,
    ) + bytes_of(h.shdr_offset as nat, w, e) + bytes_of(h.flags as nat, 4, e) + bytes_of(
        h.hdr_sz as nat,
        2,
        e,
    ) + bytes_of(h.phdr_entry_sz as nat, 2, e) + bytes_of(h.phdr_entries as nat, 2, e)
        + bytes_of(h.shdr_entry_sz as nat, 2, e) + bytes_of(h.shdr_entries as nat, 2, e)
        + bytes_of(h.shstr_idx as nat, 2, e)
}

proof fn lemma_pow256_values()
    ensures
        pow256(2) == 0x1_0000,
        pow256(4) == 0x1_0000_0000,
        pow256(8) == 0x1_0000_0000_0000_0000,
{
    reveal_with_fuel(pow256, 9);
}

/// Whatever the class and byte order, a file header written from `h` decodes
/// to `h`, every field equal to the value written.
pub proof fn lemma_header_round_trip(h: Header)
    requires
        header_encodable(h),
    ensures
        decode_header(encode_header(h)) == Ok::<Header, DecodeError>(h),
{
    let e = h.endian;
    let w = word_width(h.class);
    let b = encode_header(h);
    lemma_pow256_values();
    lemma_bytes_round_trip(h.bin_type.spec_to_raw() as nat, 2, e);
    lemma_bytes_round_trip(h.machine.spec_to_raw() as nat, 2, e);
    lemma_bytes_round_trip(h.misc_version as nat, 4, e);
    lemma_bytes_round_trip(h.entry_point as nat, w as nat, e);
    lemma_bytes_round_trip(h.phdr_offset as nat, w as nat, e);
    lemma_bytes_round_trip(h.shdr_offset as nat, w as nat, e);
    lemma_bytes_round_trip(h.flags as nat, 4, e);
    lemma_bytes_round_trip(h.hdr_sz as nat, 2, e);
    lemma_bytes_round_trip(h.phdr_entry_sz as nat, 2, e);
    lemma_bytes_round_trip(h.phdr_entries as nat, 2, e);
    lemma_bytes_round_trip(h.shdr_entry_sz as nat, 2, e);
    lemma_bytes_round_trip(h.shdr_entries as nat, 2, e);
    lemma_bytes_round_trip(h.shstr_idx as nat, 2, e);
    assert(b.len() == 0x28 + 3 * w);
    assert(b.subrange(0x10, 0x12) =~= bytes_of(h.bin_type.spec_to_raw() as nat, 2, e));
    assert(b.subrange(0x12, 0x14) =~= bytes_of(h.machine.spec_to_raw() as nat, 2, e));
    assert(b.subrange(0x14, 0x18) =~= bytes_of(h.misc_version as nat, 4, e));
    assert(b.subrange(0x18, 0x18 + w) =~= bytes_of(h.entry_point as nat, w as nat, e));
    assert(b.subrange(0x18 + w, 0x18 + 2 * w) =~= bytes_of(h.phdr_offset as nat, w as nat, e));
    assert(b.subrange(0x18 + 2 * w, 0x18 + 3 * w) =~= bytes_of(h.shdr_offset as nat, w as nat, e));
    assert(b.subrange(0x18 + 3 * w, 0x1c + 3 * w) =~= bytes_of(h.flags as nat, 4, e));
    assert(b.subrange(0x1c + 3 * w, 0x1e + 3 * w) =~= bytes_of(h.hdr_sz as nat, 2, e));
    assert(b.subrange(0x1e + 3 * w, 0x20 + 3 * w) =~= bytes_of(h.phdr_entry_sz as nat, 2, e));
    assert(b.subrange(0x20 + 3 * w, 0x22 + 3 * w) =~= bytes_of(h.phdr_entries as nat, 2, e));
    assert(b.subrange(0x22 + 3 * w, 0x24 + 3 * w) =~= bytes_of(h.shdr_entry_sz as nat, 2, e));
    assert(b.subrange(0x24 + 3 * w, 0x26 + 3 * w) =~= bytes_of(h.shdr_entries as nat, 2, e));
    assert(b.subrange(0x26 + 3 * w, 0x28 + 3 * w) =~= bytes_of(h.shstr_idx as nat, 2, e));
    assert(field(b, 0x10, 2, e) == h.bin_type.spec_to_raw() as nat);
    assert(decode_header(b) == Ok::<Header, DecodeError>(h));
}

/// An address-sized field read from `b` at `offset` holds the value of its
/// `word_width(class)` bytes, which fits in them.
proof fn lemma_word(b: Seq<u8>, offset: int, class: Class, endian: Endian)
    requires
        in_bounds(b, offset, word_width(class)),
    ensures
        word(b, offset, class, endian) as nat == field(b, offset, word_width(class), endian),
        word(b, offset, class, endian) < pow256(word_width(class) as nat),
{
    lemma_pow256_values();
    lemma_uint_bound(b.subrange(offset, offset + word_width(class)), endian);
}

/// In the file header, the entry point and the two table offsets are read in
/// four bytes from a 32-bit file and in eight from a 64-bit one: each is the
/// value of those bytes, and fits in them.
pub proof fn lemma_header_address_width(b: Seq<u8>)
    requires
        decode_header(b) is Ok,
    ensures
        ({
            let h = decode_header(b)->Ok_0;
            let w = word_width(h.class);
            &&& h.entry_point as nat == field(b, 0x18, w, h.endian)
            &&& h.phdr_offset as nat == field(b, 0x18 + w, w, h.endian)
            &&& h.shdr_offset as nat == field(b, 0x18 + 2 * w, w, h.endian)
            &&& h.entry_point < pow256(w as nat)
            &&& h.phdr_offset < pow256(w as nat)
            &&& h.shdr_offset < pow256(w as nat)
        }),
{
    let h = decode_header(b)->Ok_0;
    let w = word_width(h.class);
    lemma_word(b, 0x18, h.class, h.endian);
    lemma_word(b, 0x18 + w, h.class, h.endian);
    lemma_word(b, 0x18 + 2 * w, h.class, h.endian);
}

/// In a program header entry, the offset, the two addresses, the two sizes and
/// the alignment are read in four bytes from a 32-bit file and in eight from
/// a 64-bit one: each is the value of those bytes, and fits in them.
pub proof fn lemma_phdr_address_width(b: Seq<u8>, at: int, class: Class, endian: Endian)
    requires
        decode_phdr(b, at, class, endian) is Ok,
    ensures
        ({
            let p = decode_phdr(b, at, class, endian)->Ok_0;
            let l = spec_phdr_layout(class);
            let w = word_width(class);
            &&& p.offset as nat == field(b, at + l.offset, w, endian)
            &&& p.vaddr as nat == field(b, at + l.vaddr, w, endian)
            &&& p.paddr as nat == field(b, at + l.paddr, w, endian)
            &&& p.filesz as nat == field(b, at + l.filesz, w, endian)
            &&& p.memsz as nat == field(b, at + l.memsz, w, endian)
            &&& p.align as nat == field(b, at + l.align, w, endian)
            &&& p.offset < pow256(w as nat)
            &&& p.vaddr < pow256(w as nat)
            &&& p.paddr < pow256(w as nat)
            &&& p.filesz < pow256(w as nat)
            &&& p.memsz < pow256(w as nat)
            &&& p.align < pow256(w as nat)
        }),
{
    let l = spec_phdr_layout(class);
    lemma_word(b, at + l.offset, class, endian);
    lemma_word(b, at + l.vaddr, class, endian);
    lemma_word(b, at + l.paddr, class, endian);
    lemma_word(b, at + l.filesz, class, endian);
    lemma_word(b, at + l.memsz, class, endian);
    lemma_word(b, at + l.align, class, endian);
}

/// In a section header entry, the flags, the address, the offset, the size,
/// the alignment and the entry size are read in four bytes from a 32-bit
/// file and in eight from a 64-bit one: each is the value of those bytes,
/// and fits in them.
pub proof fn lemma_shdr_address_width(
    sh: SHeader,
    b: Seq<u8>,
    at: int,
    class: Class,
    endian: Endian,
    base: int,
)
    requires
        in_bounds(b, at, shdr_size(class)),
        shdr_matches(sh, b, at, class, endian, base),
    ensures
        ({
            let w = word_width(class);
            &&& sh.sflags.bits as nat == field(b, at + 8, w, endian)
            &&& sh.vaddr as nat == field(b, at + 8 + w, w, endian)
            &&& sh.offset as nat == field(b, at + 8 + 2 * w, w, endian)
            &&& sh.size as nat == field(b, at + 8 + 3 * w, w, endian)
            &&& sh.align as nat == field(b, at + 16 + 4 * w, w, endian)
            &&& sh.entsize as nat == field(b, at + 16 + 5 * w, w, endian)
            &&& sh.sflags.bits < pow256(w as nat)
            &&& sh.vaddr < pow256(w as nat)
            &&& sh.offset < pow256(w as nat)
            &&& sh.size < pow256(w as nat)
            &&& sh.align < pow256(w as nat)
            &&& sh.entsize < pow256(w as nat)
        }),
{
    let w = word_width(class);
    lemma_word(b, at + 8, class, endian);
    lemma_word(b, at + 8 + w, class, endian);
    lemma_word(b, at + 8 + 2 * w, class, endian);
    lemma_word(b, at + 8 + 3 * w, class, endian);
    lemma_word(b, at + 16 + 4 * w, class, endian);
    lemma_word(b, at + 16 + 5 * w, class, endian);
}

/// A buffer of at least four bytes that does not start with the magic is a
/// format error, whatever follows.
pub proof fn lemma_bad_magic(b: Seq<u8>)
    requires
        b.len() >= 4,
        !has_magic(b),
    ensures
        decode_header(b) == Err::<Header, DecodeError>(DecodeError::Format),
{
}

/// Cutting a decodable file header short, anywhere before its last byte,
/// gives a bounds error.
pub proof fn lemma_truncated_header(b: Seq<u8>, k: int)
    requires
        decode_header(b) is Ok,
        0 <= k < header_size(decode_header(b)->Ok_0.class),
    ensures
        decode_header(b.subrange(0, k)) == Err::<Header, DecodeError>(DecodeError::Bounds),
{
    let t = b.subrange(0, k);
    if k >= 4 {
        assert(has_magic(t));
    }
    if k >= 9 {
        assert(t[4] == b[4] && t[5] == b[5]);
    }
}

/// The name that starts at a zero byte is empty: name offset 0 into a table
/// that starts with its conventional zero byte.
pub proof fn lemma_empty_name(b: Seq<u8>, start: int)
    requires
        0 <= start < b.len(),
        b[start] == 0,
    ensures
        name_at(b, start) == Some(Seq::<char>::empty()),
{
    lemma_name_bytes(b, start, start);
    assert(bytes_as_chars(b.subrange(start, start)) =~= Seq::<char>::empty());
}

/// A name is the bytes from its start up to, not including, the first zero
/// byte, one character each.
pub proof fn lemma_name_bytes(b: Seq<u8>, start: int, end: int)
    requires
        terminates_at(b, start, end),
    ensures
        name_at(b, start) == Some(bytes_as_chars(b.subrange(start, end))),
{
    let e = choose|e: int| #[trigger] terminates_at(b, start, e);
    assert(terminates_at(b, start, e));
    if e < end {
        assert(b[e] != 0);
    } else if e > end {
        assert(b[end] != 0);
    }
    assert(e == end);
}

} // verus!
