//! The protocol's 16-bit checksum over a payload and its control byte.

use vstd::prelude::*;

verus! {

/// Sum of all bytes of `payload`, as a mathematical integer.
pub open spec fn byte_sum(payload: Seq<u8>) -> int
    decreases payload.len(),
{
    if payload.len() == 0 {
        0
    } else {
        byte_sum(payload.drop_last()) + payload.last()
    }
}

/// The checksum the device expects: the two's-complement negation of
/// `control + payload length + byte sum`, truncated to 16 bits.
pub open spec fn spec_checksum(payload: Seq<u8>, control: u8) -> u16 {
    ((0x10000 - (control + payload.len() + byte_sum(payload)) % 0x10000) % 0x10000) as u16
}

proof fn lemma_byte_sum_bounds(payload: Seq<u8>)
    ensures
        0 <= byte_sum(payload) <= 255 * payload.len(),
    decreases payload.len(),
{
    if payload.len() > 0 {
        lemma_byte_sum_bounds(payload.drop_last());
    }
}

/// Calculate the checksum of a payload.
///
/// The protocol's length field is a single byte, so a payload never exceeds
/// 255 bytes.
pub fn calculate_checksum(payload: &[u8], control: u8) -> (checksum: u16)
    requires
        payload@.len() <= 255,
    ensures
        checksum == spec_checksum(payload@, control),
{
    let mut sum: u32 = control as u32 + payload.len() as u32;
    let mut i: usize = 0;
    while i < payload.len()
        invariant
            i <= payload@.len() <= 255,
            sum == control + payload@.len() + byte_sum(payload@.subrange(0, i as int)),
            sum <= 510 + 255 * i,
        decreases payload@.len() - i,
    {
        proof {
            lemma_byte_sum_bounds(payload@.subrange(0, i as int));
            assert(payload@.subrange(0, i + 1).drop_last() =~= payload@.subrange(0, i as int));
        }
        sum = sum + payload[i] as u32;
        i = i + 1;
    }
    proof {
        assert(payload@.subrange(0, payload@.len() as int) =~= payload@);
    }
    ((0x10000 - sum % 0x10000) % 0x10000) as u16
}

/// Whether `checksum` is the correct checksum for `payload` and `control`.
pub open spec fn spec_checksum_matches(checksum: u16, payload: Seq<u8>, control: u8) -> bool {
    checksum == spec_checksum(payload, control)
}

/// Verify the checksum of a payload.
pub fn verify_checksum(checksum: u16, payload: &[u8], control: u8) -> (r: bool)
    requires
        payload@.len() <= 255,
    ensures
        r == spec_checksum_matches(checksum, payload@, control),
{
    calculate_checksum(payload, control) == checksum
}

/// A freshly calculated checksum always verifies: for every payload and
/// control byte, the checksum computed by [`calculate_checksum`] passes the
/// check made by [`verify_checksum`].
pub proof fn lemma_calculate_verifies(payload: Seq<u8>, control: u8)
    requires
        payload.len() <= 255,
    ensures
        spec_checksum_matches(spec_checksum(payload, control), payload, control),
{
}

} // verus!
