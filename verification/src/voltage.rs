//! The cell-voltage record: the payload of a `0xDD04` response, exactly
//! four big-endian signed 16-bit cell voltages.

use crate::util::i16_from_bytes;
use crate::util::spec_i16_from_bytes;
use crate::ParseError;
use vstd::prelude::*;
use vstd::slice::slice_subrange;

verus! {

/// An ordered sequence of exactly four signed 16-bit cell voltages,
/// millivolt scale.
///
/// The derived sums and extrema are computed on every access, never cached:
/// the reading is immutable once decoded.
#[derive(Debug, PartialEq, Eq)]
pub struct BatteryVoltage(pub Vec<i16>);

impl View for BatteryVoltage {
    type V = Seq<i16>;

    open spec fn view(&self) -> Seq<i16> {
        self.0@
    }
}

/// A voltage payload is well-formed when it holds the eight bytes of the
/// four cells.
pub open spec fn voltage_payload_ok(msg: Seq<u8>) -> bool {
    msg.len() >= 8
}

/// The four cell values encoded by a voltage payload; bytes past the
/// eighth are ignored.
pub open spec fn spec_cells(msg: Seq<u8>) -> Seq<i16> {
    Seq::new(4, |i: int| spec_i16_from_bytes(msg[2 * i], msg[2 * i + 1]))
}

/// Sum of a sequence of 16-bit readings, as a mathematical integer.
pub open spec fn spec_total(s: Seq<i16>) -> int
    decreases s.len(),
{
    if s.len() == 0 {
        0
    } else {
        spec_total(s.drop_last()) + s.last()
    }
}

/// Minimum of a sequence of 16-bit readings; 0 when the sequence is empty.
pub open spec fn spec_seq_min(s: Seq<i16>) -> int
    decreases s.len(),
{
    if s.len() == 0 {
        0
    } else if s.len() == 1 {
        s[0] as int
    } else {
        let m = spec_seq_min(s.drop_last());
        if s.last() < m {
            s.last() as int
        } else {
            m
        }
    }
}

/// Maximum of a sequence of 16-bit readings; 0 when the sequence is empty.
pub open spec fn spec_seq_max(s: Seq<i16>) -> int
    decreases s.len(),
{
    if s.len() == 0 {
        0
    } else if s.len() == 1 {
        s[0] as int
    } else {
        let m = spec_seq_max(s.drop_last());
        if s.last() > m {
            s.last() as int
        } else {
            m
        }
    }
}

/// Mean of a sequence of 16-bit readings, truncated toward zero as Rust's
/// integer division truncates; 0 when the sequence is empty.
pub open spec fn spec_mean(s: Seq<i16>) -> int {
    if s.len() == 0 {
        0
    } else if spec_total(s) >= 0 {
        spec_total(s) / s.len() as int
    } else {
        -((-spec_total(s)) / s.len() as int)
    }
}

/// The sum of `n` 16-bit readings stays within `n * 32768` of zero.
pub proof fn lemma_total_bounds(s: Seq<i16>)
    ensures
        -32768 * s.len() <= spec_total(s) <= 32767 * s.len(),
    decreases s.len(),
{
    if s.len() > 0 {
        lemma_total_bounds(s.drop_last());
    }
}

impl BatteryVoltage {
    /// Decode a voltage payload: the four consecutive big-endian signed
    /// 16-bit cells in its first eight bytes.
    ///
    /// Fewer than eight bytes is not enough data; bytes past the eighth
    /// are ignored.
    pub fn parse_message(msg: &[u8]) -> (r: Result<BatteryVoltage, ParseError>)
        ensures
            match r {
                Ok(bv) => voltage_payload_ok(msg@) && bv@ == spec_cells(msg@),
                Err(e) => !voltage_payload_ok(msg@) && e == ParseError::NotEnoughData,
            },
    {
        if msg.len() < 8 {
            return Err(ParseError::NotEnoughData);
        }

        let mut list: Vec<i16> = Vec::new();
        let mut i: usize = 0;
        while i < 4
            invariant
                i <= 4,
                msg@.len() >= 8,
                msg@.len() <= usize::MAX,
                list@.len() == i,
                forall|j: int|
                    0 <= j < i ==> list@[j] == spec_i16_from_bytes(msg@[2 * j], msg@[2 * j + 1]),
            decreases 4 - i,
        {
            let offset = i * 2;
            list.push(i16_from_bytes(slice_subrange(msg, offset, offset + 2)));
            i = i + 1;
        }

        proof {
            assert(list@ =~= spec_cells(msg@));
        }
        Ok(BatteryVoltage(list))
    }

    /// The total voltage: the sum of all cells.
    pub fn total(&self) -> (r: i64)
        requires
            self@.len() <= 65535,
        ensures
            r == spec_total(self@),
    {
        let mut sum: i64 = 0;
        let mut i: usize = 0;
        while i < self.0.len()
            invariant
                i <= self@.len() <= 65535,
                sum == spec_total(self@.subrange(0, i as int)),
                -32768 * i <= sum <= 32767 * i,
            decreases self@.len() - i,
        {
            proof {
                assert(self@.subrange(0, i + 1).drop_last() =~= self@.subrange(0, i as int));
            }
            sum = sum + (self.0[i] as i64);
            i = i + 1;
        }
        proof {
            assert(self@.subrange(0, self@.len() as int) =~= self@);
        }
        sum
    }

    /// The average voltage, truncated toward zero; 0 for an empty reading.
    pub fn avg(&self) -> (r: i64)
        requires
            self@.len() <= 65535,
        ensures
            r == spec_mean(self@),
    {
        let n = self.0.len();
        if n == 0 {
            return 0;
        }
        let t = self.total();
        proof {
            lemma_total_bounds(self@);
        }
        if t >= 0 {
            ((t as u64) / (n as u64)) as i64
        } else {
            -((((-t) as u64) / (n as u64)) as i64)
        }
    }

    /// The minimum cell voltage; 0 for an empty reading.
    pub fn min(&self) -> (r: i64)
        ensures
            r == spec_seq_min(self@),
    {
        if self.0.len() == 0 {
            return 0;
        }
        let mut m: i16 = self.0[0];
        let mut i: usize = 1;
        while i < self.0.len()
            invariant
                1 <= i <= self@.len(),
                m == spec_seq_min(self@.subrange(0, i as int)),
            decreases self@.len() - i,
        {
            proof {
                assert(self@.subrange(0, i + 1).drop_last() =~= self@.subrange(0, i as int));
            }
            if self.0[i] < m {
                m = self.0[i];
            }
            i = i + 1;
        }
        proof {
            assert(self@.subrange(0, self@.len() as int) =~= self@);
        }
        m as i64
    }

    /// The maximum cell voltage; 0 for an empty reading.
    pub fn max(&self) -> (r: i64)
        ensures
            r == spec_seq_max(self@),
    {
        if self.0.len() == 0 {
            return 0;
        }
        let mut m: i16 = self.0[0];
        let mut i: usize = 1;
        while i < self.0.len()
            invariant
                1 <= i <= self@.len(),
                m == spec_seq_max(self@.subrange(0, i as int)),
            decreases self@.len() - i,
        {
            proof {
                assert(self@.subrange(0, i + 1).drop_last() =~= self@.subrange(0, i as int));
            }
            if self.0[i] > m {
                m = self.0[i];
            }
            i = i + 1;
        }
        proof {
            assert(self@.subrange(0, self@.len() as int) =~= self@);
        }
        m as i64
    }
}

} // verus!
