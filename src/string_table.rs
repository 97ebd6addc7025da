//! Names held in a string table: runs of bytes ended by a zero byte.
use vstd::prelude::*;
use crate::error::DecodeError;

verus! {

/// Whether the name that starts at `start` in `b` ends with the zero byte
/// at `end`.
pub open spec fn terminates_at(b: Seq<u8>, start: int, end: int) -> bool {
    &&& 0 <= start <= end < b.len()
    &&& b[end] == 0
    &&& forall|i: int| start <= i < end ==> b[i] != 0
}

/// Bytes read as characters, one for one.
pub open spec fn bytes_as_chars(s: Seq<u8>) -> Seq<char> {
    s.map_values(|x: u8| x as char)
}

/// The name that starts at `start` in `b`, read up to its zero byte; none
/// where no zero byte follows inside `b`.
pub open spec fn name_at(b: Seq<u8>, start: int) -> Option<Seq<char>> {
    if exists|end: int| #[trigger] terminates_at(b, start, end) {
        let end = choose|end: int| #[trigger] terminates_at(b, start, end);
        Some(bytes_as_chars(b.subrange(start, end)))
    } else {
        None
    }
}

/// Relies on `String::push`: appends one character at the end.
#[verifier::external_body]
fn push_char(s: &mut String, c: char)
    ensures
        final(s)@ == old(s)@.push(c),
{
    s.push(c)
}

/// Reads the name that starts `name_offset` bytes into the string table at
/// `base`: the bytes from there up to, not including, the first zero byte.
/// A name whose terminator lies past the end of `content` is a bounds error.
pub fn read_name(content: &Vec<u8>, base: u64, name_offset: u32) -> (r: Result<
    String,
    DecodeError,
>)
    ensures
        match name_at(content@, base + name_offset) {
            Some(n) => r matches Ok(s) && s@ == n,
            None => r == Err::<String, DecodeError>(DecodeError::Bounds),
        },
{
    let len = content.len();
    if base > len as u64 || name_offset as u64 > len as u64 - base {
        return Err(DecodeError::Bounds);
    }
    let start = (base + name_offset as u64) as usize;
    let mut name = String::new();
    let mut i: usize = start;
    while i < len && content[i] != 0
        invariant
            len == content@.len(),
            start == base + name_offset,
            start <= i <= len,
            forall|j: int| start <= j < i ==> content@[j] != 0,
            name@ == bytes_as_chars(content@.subrange(start as int, i as int)),
        decreases len - i,
    {
        push_char(&mut name, content[i] as char);
        proof {
            assert(content@.subrange(start as int, i + 1) =~= content@.subrange(
                start as int,
                i as int,
            ).push(content@[i as int]));
        }
        i = i + 1;
    }
    if i == len {
        proof {
            assert forall|end: int| !#[trigger] terminates_at(content@, base + name_offset, end) by {
                if terminates_at(content@, base + name_offset, end) {
                    assert(content@[end] != 0);
                }
            }
        }
        return Err(DecodeError::Bounds);
    }
    proof {
        assert(terminates_at(content@, base + name_offset, i as int));
        assert forall|end: int| #[trigger] terminates_at(content@, base + name_offset, end) implies end
            == i by {
            if end < i {
                assert(content@[end] != 0);
            } else if end > i {
                assert(content@[i as int] != 0);
            }
        }
    }
    Ok(name)
}

} // verus!
