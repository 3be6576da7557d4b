//! The thermistor (NTC) list embedded at the tail of a detail payload: a
//! count byte followed by that many big-endian signed 16-bit readings, each
//! stored relative to a fixed offset of 2731 tenths of a kelvin.

use crate::util::i16_from_bytes;
use crate::util::spec_i16_from_bytes;
use crate::voltage::lemma_total_bounds;
use crate::voltage::spec_mean;
use crate::voltage::spec_seq_max;
use crate::voltage::spec_seq_min;
use crate::voltage::spec_total;
use crate::ParseError;
use vstd::prelude::*;
use vstd::slice::slice_subrange;

verus! {

/// A variable-length ordered sequence of temperature-sensor readings.
///
/// Each element is the raw device value minus 2731; the offset is kept
/// exactly as the device defines it, not reinterpreted.
#[derive(Debug, PartialEq, Eq)]
pub struct NtcList(pub Vec<i16>);

impl View for NtcList {
    type V = Seq<i16>;

    open spec fn view(&self) -> Seq<i16> {
        self.0@
    }
}

/// A raw device reading with the fixed 2731 offset removed.  The
/// subtraction wraps around the 16-bit range, as the release build of a
/// plain `i16` subtraction does.
pub open spec fn spec_ntc_reading(hi: u8, lo: u8) -> i16 {
    let raw = spec_i16_from_bytes(hi, lo);
    if raw - 2731 < -0x8000 {
        (raw - 2731 + 0x10000) as i16
    } else {
        (raw - 2731) as i16
    }
}

/// An NTC payload is well-formed when its count byte is present and
/// followed by at least two bytes per announced reading.
pub open spec fn ntc_payload_ok(msg: Seq<u8>) -> bool {
    msg.len() >= 1 && msg.len() >= 1 + 2 * msg[0]
}

/// The readings encoded by an NTC payload.
pub open spec fn spec_ntc_readings(msg: Seq<u8>) -> Seq<i16> {
    Seq::new(msg[0] as nat, |i: int| spec_ntc_reading(msg[1 + 2 * i], msg[2 + 2 * i]))
}

impl NtcList {
    /// Decode an NTC payload.  A zero count yields an empty list, not an
    /// error; a missing count byte or fewer bytes than announced is not
    /// enough data.
    pub fn parse_message(msg: &[u8]) -> (r: Result<NtcList, ParseError>)
        ensures
            match r {
                Ok(list) => ntc_payload_ok(msg@) && list@ == spec_ntc_readings(msg@),
                Err(e) => !ntc_payload_ok(msg@) && e == ParseError::NotEnoughData,
            },
    {
        if msg.len() == 0 {
            return Err(ParseError::NotEnoughData);
        }

        let num_ntc = msg[0] as usize;
        if msg.len() < 1 + num_ntc * 2 {
            return Err(ParseError::NotEnoughData);
        }

        let mut list: Vec<i16> = Vec::new();
        let mut i: usize = 0;
        while i < num_ntc
            invariant
                i <= num_ntc <= 255,
                msg@.len() >= 1 + num_ntc * 2,
                msg@.len() <= usize::MAX,
                num_ntc == msg@[0],
                list@.len() == i,
                forall|j: int|
                    0 <= j < i ==> list@[j] == spec_ntc_reading(
                        msg@[1 + 2 * j],
                        msg@[2 + 2 * j],
                    ),
            decreases num_ntc - i,
        {
            let offset = 1 + i * 2;
            let raw = i16_from_bytes(slice_subrange(msg, offset, offset + 2));
            let wide: i32 = raw as i32 - 2731;
            let value: i16 = if wide < -0x8000 {
                (wide + 0x10000) as i16
            } else {
                wide as i16
            };
            list.push(value);
            i = i + 1;
        }

        proof {
            assert(list@ =~= spec_ntc_readings(msg@));
        }
        Ok(NtcList(list))
    }

    /// The average temperature reading, truncated toward zero; 0 when the
    /// list is empty.
    pub fn average(&self) -> (r: i64)
        requires
            self@.len() <= 65535,
        ensures
            r == spec_mean(self@),
    {
        let n = self.0.len();
        if n == 0 {
            return 0;
        }
        let mut sum: i64 = 0;
        let mut i: usize = 0;
        while i < self.0.len()
            invariant
                i <= self@.len() <= 65535,
                sum == spec_total(self@.subrange(0, i as int)),
                -32768 * i <= sum <= 32767 * i,
            decreases self@.len() - i,
        {
            proof {
                assert(self@.subrange(0, i + 1).drop_last() =~= self@.subrange(0, i as int));
            }
            sum = sum + (self.0[i] as i64);
            i = i + 1;
        }
        proof {
            assert(self@.subrange(0, self@.len() as int) =~= self@);
            lemma_total_bounds(self@);
        }
        if sum >= 0 {
            ((sum as u64) / (n as u64)) as i64
        } else {
            -((((-sum) as u64) / (n as u64)) as i64)
        }
    }

    /// The minimum temperature reading; 0 when the list is empty.
    pub fn min(&self) -> (r: i64)
        ensures
            r == spec_seq_min(self@),
    {
        if self.0.len() == 0 {
            return 0;
        }
        let mut m: i16 = self.0[0];
        let mut i: usize = 1;
        while i < self.0.len()
            invariant
                1 <= i <= self@.len(),
                m == spec_seq_min(self@.subrange(0, i as int)),
            decreases self@.len() - i,
        {
            proof {
                assert(self@.subrange(0, i + 1).drop_last() =~= self@.subrange(0, i as int));
            }
            if self.0[i] < m {
                m = self.0[i];
            }
            i = i + 1;
        }
        proof {
            assert(self@.subrange(0, self@.len() as int) =~= self@);
        }
        m as i64
    }

    /// The maximum temperature reading; 0 when the list is empty.
    pub fn max(&self) -> (r: i64)
        ensures
            r == spec_seq_max(self@),
    {
        if self.0.len() == 0 {
            return 0;
        }
        let mut m: i16 = self.0[0];
        let mut i: usize = 1;
        while i < self.0.len()
            invariant
                1 <= i <= self@.len(),
                m == spec_seq_max(self@.subrange(0, i as int)),
            decreases self@.len() - i,
        {
            proof {
                assert(self@.subrange(0, i + 1).drop_last() =~= self@.subrange(0, i as int));
            }
            if self.0[i] > m {
                m = self.0[i];
            }
            i = i + 1;
        }
        proof {
            assert(self@.subrange(0, self@.len() as int) =~= self@);
        }
        m as i64
    }
}

} // verus!
