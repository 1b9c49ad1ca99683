//! Buffers that the host fills with text.

use vstd::prelude::*;

verus! {

/// A buffer of `len` bytes as [`allocate`] hands it out: every byte is zero.
pub open spec fn zeroed(len: nat) -> Seq<u8> {
    Seq::new(len, |i: int| 0u8)
}

/// Reserves a buffer of `size` bytes for the host to write into.
///
/// A size of zero is legal and gives an empty buffer. The buffer is never
/// taken back: whoever receives it keeps it. Every byte starts out as zero, so
/// a text shorter than the buffer is terminated wherever the host stops
/// writing.
pub fn allocate(size: usize) -> (buffer: Vec<u8>)
    requires
        size <= isize::MAX,
    ensures
        buffer@ == zeroed(size as nat),
{
    let buffer: Vec<u8> = vec![0u8; size];
    assert(buffer@ =~= zeroed(size as nat));
    buffer
}

} // verus!
