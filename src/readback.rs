//! Framing of the bytes read back from the staging buffer.

use vstd::prelude::*;

verus! {

/// Width in bytes of one value the shader writes (a 32-bit float).
pub const VALUE_BYTES: usize = 4;

/// Number of whole values in `byte_len` mapped bytes, or `None` when the
/// bytes do not split into whole values.
pub fn value_count(byte_len: usize) -> (r: Option<usize>)
    ensures
        r is Some <==> byte_len % VALUE_BYTES == 0,
        r matches Some(n) ==> n == byte_len / VALUE_BYTES,
        r matches Some(n) ==> n * VALUE_BYTES == byte_len,
{
    if byte_len % VALUE_BYTES == 0 {
        Some(byte_len / VALUE_BYTES)
    } else {
        None
    }
}

} // verus!
