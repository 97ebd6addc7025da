use vstd::prelude::*;

verus! {

/// Why a decode failed.
#[derive(Debug, Clone, Copy, PartialEq, Eq, Structural)]
pub enum DecodeError {
    /// The first four bytes are not `0x7F 'E' 'L' 'F'`.
    Format,
    /// The class or byte-order byte holds neither of its two known values.
    Identity,
    /// A read would reach past the end of the buffer.
    Bounds,
}

} // verus!
