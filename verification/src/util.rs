//! Big-endian field extraction and small byte helpers shared by every
//! message decoder.  The device encodes all multi-byte fields big-endian.

use vstd::prelude::*;

verus! {

/// The unsigned 16-bit value encoded big-endian by the bytes `hi`, `lo`.
pub open spec fn spec_u16_from_bytes(hi: u8, lo: u8) -> u16 {
    (hi * 256 + lo) as u16
}

/// The signed 16-bit value encoded big-endian by the bytes `hi`, `lo`,
/// read as two's complement.
pub open spec fn spec_i16_from_bytes(hi: u8, lo: u8) -> i16 {
    if hi < 128 {
        (hi * 256 + lo) as i16
    } else {
        (hi * 256 + lo - 0x10000) as i16
    }
}

/// Decode a big-endian unsigned 16-bit integer.
///
/// The caller guarantees exactly two input bytes; every call site checks the
/// bounds before slicing.
pub fn u16_from_bytes(b: &[u8]) -> (r: u16)
    requires
        b@.len() == 2,
    ensures
        r == spec_u16_from_bytes(b@[0], b@[1]),
{
    (b[0] as u16) * 256 + (b[1] as u16)
}

/// Decode a big-endian signed 16-bit integer.
///
/// The caller guarantees exactly two input bytes; every call site checks the
/// bounds before slicing.
pub fn i16_from_bytes(b: &[u8]) -> (r: i16)
    requires
        b@.len() == 2,
    ensures
        r == spec_i16_from_bytes(b@[0], b@[1]),
{
    let v: i32 = (b[0] as i32) * 256 + (b[1] as i32);
    if v >= 0x8000 {
        (v - 0x10000) as i16
    } else {
        v as i16
    }
}

/// Compare two byte slices for equality.
pub fn bytes_eq(a: &[u8], b: &[u8]) -> (r: bool)
    ensures
        r == (a@ == b@),
{
    if a.len() != b.len() {
        proof {
            assert(a@.len() != b@.len());
        }
        return false;
    }
    let mut i: usize = 0;
    while i < a.len()
        invariant
            i <= a@.len(),
            a@.len() == b@.len(),
            forall|j: int| 0 <= j < i ==> a@[j] == b@[j],
        decreases a@.len() - i,
    {
        if a[i] != b[i] {
            return false;
        }
        i = i + 1;
    }
    proof {
        assert(a@ =~= b@);
    }
    true
}

} // verus!
