//! Extraction of fixed-size unsigned integers from a byte buffer.
use vstd::prelude::*;
use byteorder::{BigEndian, ByteOrder, LittleEndian};
use crate::error::DecodeError;
use crate::header_enums::{word_width, Class, Endian};

verus! {

/// The unsigned integer whose bytes, least significant first, are `s`.
pub open spec fn uint_le(s: Seq<u8>) -> nat
    decreases s.len(),
{
    if s.len() == 0 {
        0
    } else {
        (s[0] as nat + 256 * uint_le(s.drop_first())) as nat
    }
}

/// The unsigned integer whose bytes, most significant first, are `s`.
pub open spec fn uint_be(s: Seq<u8>) -> nat
    decreases s.len(),
{
    if s.len() == 0 {
        0
    } else {
        (uint_be(s.drop_last()) * 256 + s.last() as nat) as nat
    }
}

/// The unsigned integer that the bytes `s` encode in byte order `endian`.
pub open spec fn uint_of(s: Seq<u8>, endian: Endian) -> nat {
    match endian {
        Endian::Little => uint_le(s),
        Endian::Big => uint_be(s),
    }
}

/// The unsigned integer held by the `width` bytes of `b` at `offset`.
pub open spec fn field(b: Seq<u8>, offset: int, width: int, endian: Endian) -> nat {
    uint_of(b.subrange(offset, offset + width), endian)
}

/// The address-sized field of `b` at `offset`, widened to 64 bits.
pub open spec fn word(b: Seq<u8>, offset: int, class: Class, endian: Endian) -> u64 {
    field(b, offset, word_width(class), endian) as u64
}

/// Whether `width` bytes at `offset` lie inside `b`.
pub open spec fn in_bounds(b: Seq<u8>, offset: int, width: int) -> bool {
    0 <= offset && offset + width <= b.len()
}

/// Relies on byteorder's `LittleEndian::read_u16`: the first two bytes of the
/// slice, least significant first (it panics on a shorter slice).
#[verifier::external_body]
fn le_u16(buf: &Vec<u8>, offset: usize) -> (r: u16)
    requires
        offset + 2 <= buf@.len(),
    ensures
        r as nat == uint_le(buf@.subrange(offset as int, offset + 2)),
{
    LittleEndian::read_u16(&buf[offset..])
}

/// Relies on byteorder's `BigEndian::read_u16`: the first two bytes of the
/// slice, most significant first (it panics on a shorter slice).
#[verifier::external_body]
fn be_u16(buf: &Vec<u8>, offset: usize) -> (r: u16)
    requires
        offset + 2 <= buf@.len(),
    ensures
        r as nat == uint_be(buf@.subrange(offset as int, offset + 2)),
{
    BigEndian::read_u16(&buf[offset..])
}

/// Relies on byteorder's `LittleEndian::read_u32`: the first four bytes of
/// the slice, least significant first (it panics on a shorter slice).
#[verifier::external_body]
fn le_u32(buf: &Vec<u8>, offset: usize) -> (r: u32)
    requires
        offset + 4 <= buf@.len(),
    ensures
        r as nat == uint_le(buf@.subrange(offset as int, offset + 4)),
{
    LittleEndian::read_u32(&buf[offset..])
}

/// Relies on byteorder's `BigEndian::read_u32`: the first four bytes of the
/// slice, most significant first (it panics on a shorter slice).
#[verifier::external_body]
fn be_u32(buf: &Vec<u8>, offset: usize) -> (r: u32)
    requires
        offset + 4 <= buf@.len(),
    ensures
        r as nat == uint_be(buf@.subrange(offset as int, offset + 4)),
{
    BigEndian::read_u32(&buf[offset..])
}

/// Relies on byteorder's `LittleEndian::read_u64`: the first eight bytes of
/// the slice, least significant first (it panics on a shorter slice).
#[verifier::external_body]
fn le_u64(buf: &Vec<u8>, offset: usize) -> (r: u64)
    requires
        offset + 8 <= buf@.len(),
    ensures
        r as nat == uint_le(buf@.subrange(offset as int, offset + 8)),
{
    LittleEndian::read_u64(&buf[offset..])
}

/// Relies on byteorder's `BigEndian::read_u64`: the first eight bytes of the
/// slice, most significant first (it panics on a shorter slice).
#[verifier::external_body]
fn be_u64(buf: &Vec<u8>, offset: usize) -> (r: u64)
    requires
        offset + 8 <= buf@.len(),
    ensures
        r as nat == uint_be(buf@.subrange(offset as int, offset + 8)),
{
    BigEndian::read_u64(&buf[offset..])
}

/// Reads the 16-bit field at `offset`.
pub fn read_u16_at(buf: &Vec<u8>, offset: usize, endian: Endian) -> (r: u16)
    requires
        offset + 2 <= buf@.len(),
    ensures
        r as nat == field(buf@, offset as int, 2, endian),
{
    match endian {
        Endian::Little => le_u16(buf, offset),
        Endian::Big => be_u16(buf, offset),
    }
}

/// Reads the 32-bit field at `offset`.
pub fn read_u32_at(buf: &Vec<u8>, offset: usize, endian: Endian) -> (r: u32)
    requires
        offset + 4 <= buf@.len(),
    ensures
        r as nat == field(buf@, offset as int, 4, endian),
{
    match endian {
        Endian::Little => le_u32(buf, offset),
        Endian::Big => be_u32(buf, offset),
    }
}

/// Reads the 64-bit field at `offset`.
pub fn read_u64_at(buf: &Vec<u8>, offset: usize, endian: Endian) -> (r: u64)
    requires
        offset + 8 <= buf@.len(),
    ensures
        r as nat == field(buf@, offset as int, 8, endian),
{
    match endian {
        Endian::Little => le_u64(buf, offset),
        Endian::Big => be_u64(buf, offset),
    }
}

/// Reads the address-sized field at `offset`: four bytes for a 32-bit file,
/// eight for a 64-bit one, widened to 64 bits without sign extension.
pub fn read_word_at(buf: &Vec<u8>, offset: usize, class: Class, endian: Endian) -> (r: u64)
    requires
        offset + word_width(class) <= buf@.len(),
    ensures
        r == word(buf@, offset as int, class, endian),
        r as nat == field(buf@, offset as int, word_width(class), endian),
{
    match class {
        Class::X32Bit => read_u32_at(buf, offset, endian) as u64,
        Class::X64Bit => read_u64_at(buf, offset, endian),
    }
}

/// Reads an unsigned integer of `width` bytes (2, 4 or 8) at `offset`, or
/// reports that the buffer holds fewer than `width` bytes from there on.
pub fn read_uint(buf: &Vec<u8>, offset: usize, width: usize, endian: Endian) -> (r: Result<
    u64,
    DecodeError,
>)
    requires
        width == 2 || width == 4 || width == 8,
    ensures
        in_bounds(buf@, offset as int, width as int) ==> r == Ok::<u64, DecodeError>(
            field(buf@, offset as int, width as int, endian) as u64,
        ),
        !in_bounds(buf@, offset as int, width as int) ==> r == Err::<u64, DecodeError>(
            DecodeError::Bounds,
        ),
        r matches Ok(v) ==> v as nat == field(buf@, offset as int, width as int, endian),
{
    if offset > buf.len() || buf.len() - offset < width {
        return Err(DecodeError::Bounds);
    }
    if width == 2 {
        Ok(read_u16_at(buf, offset, endian) as u64)
    } else if width == 4 {
        Ok(read_u32_at(buf, offset, endian) as u64)
    } else {
        Ok(read_u64_at(buf, offset, endian))
    }
}

} // verus!
