//! The protection-status record: the payload of a `0xDDAA` response,
//! eleven signed 16-bit fault counters at fixed positional indices.

use crate::util::i16_from_bytes;
use crate::util::spec_i16_from_bytes;
use crate::ParseError;
use vstd::prelude::*;
use vstd::slice::slice_subrange;

verus! {

/// Eleven fault counters, one per protection category, addressed by the
/// positional index 0 through 10 of the wire format.
#[derive(Debug, PartialEq, Eq)]
pub struct BatteryProtect {
    pub short_circuit: i16,
    pub over_current_charging: i16,
    pub over_current_discharging: i16,
    pub cell_overvoltage: i16,
    pub cell_undervoltage: i16,
    pub high_temp_charging: i16,
    pub low_temp_charging: i16,
    pub high_temp_discharging: i16,
    pub low_temp_discharging: i16,
    pub pack_overvoltage: i16,
    pub pack_undervoltage: i16,
}

/// The counter a positional index addresses: index 0 is the short-circuit
/// counter, index 10 the pack-undervoltage counter.
pub open spec fn spec_protect_field(p: BatteryProtect, idx: int) -> i16 {
    if idx == 0 {
        p.short_circuit
    } else if idx == 1 {
        p.over_current_charging
    } else if idx == 2 {
        p.over_current_discharging
    } else if idx == 3 {
        p.cell_overvoltage
    } else if idx == 4 {
        p.cell_undervoltage
    } else if idx == 5 {
        p.high_temp_charging
    } else if idx == 6 {
        p.low_temp_charging
    } else if idx == 7 {
        p.high_temp_discharging
    } else if idx == 8 {
        p.low_temp_discharging
    } else if idx == 9 {
        p.pack_overvoltage
    } else {
        p.pack_undervoltage
    }
}

/// A protection payload is well-formed when it carries the 22 bytes of the
/// eleven counters.
pub open spec fn protect_payload_ok(msg: Seq<u8>) -> bool {
    msg.len() >= 22
}

/// Whether the record holds exactly the counters encoded by the payload.
pub open spec fn protect_matches(msg: Seq<u8>, p: BatteryProtect) -> bool {
    forall|i: int|
        0 <= i < 11 ==> spec_protect_field(p, i) == spec_i16_from_bytes(
            msg[2 * i],
            msg[2 * i + 1],
        )
}

impl Default for BatteryProtect {
    /// A record with every counter zero.
    fn default() -> (r: BatteryProtect)
        ensures
            forall|i: int| 0 <= i < 11 ==> spec_protect_field(r, i) == 0,
    {
        BatteryProtect {
            short_circuit: 0,
            over_current_charging: 0,
            over_current_discharging: 0,
            cell_overvoltage: 0,
            cell_undervoltage: 0,
            high_temp_charging: 0,
            low_temp_charging: 0,
            high_temp_discharging: 0,
            low_temp_discharging: 0,
            pack_overvoltage: 0,
            pack_undervoltage: 0,
        }
    }
}

impl BatteryProtect {
    /// Store `value` into the counter addressed by `idx`, leaving every
    /// other counter unchanged.  An out-of-range index is silently ignored,
    /// by design: the wire format reserves such indices.
    pub fn set_value_at(&mut self, idx: usize, value: i16)
        ensures
            forall|i: int|
                0 <= i < 11 ==> spec_protect_field(*final(self), i) == if i == idx {
                    value
                } else {
                    spec_protect_field(*old(self), i)
                },
    {
        match idx {
            0 => self.short_circuit = value,
            1 => self.over_current_charging = value,
            2 => self.over_current_discharging = value,
            3 => self.cell_overvoltage = value,
            4 => self.cell_undervoltage = value,
            5 => self.high_temp_charging = value,
            6 => self.low_temp_charging = value,
            7 => self.high_temp_discharging = value,
            8 => self.low_temp_discharging = value,
            9 => self.pack_overvoltage = value,
            10 => self.pack_undervoltage = value,
            _ => (),
        }
    }

    /// Decode a protection payload: eleven consecutive big-endian signed
    /// 16-bit counters.  Fewer than 22 bytes is not enough data.
    pub fn parse_message(msg: &[u8]) -> (r: Result<BatteryProtect, ParseError>)
        ensures
            match r {
                Ok(p) => protect_payload_ok(msg@) && protect_matches(msg@, p),
                Err(e) => !protect_payload_ok(msg@) && e == ParseError::NotEnoughData,
            },
    {
        if msg.len() < 22 {
            return Err(ParseError::NotEnoughData);
        }

        let mut protect = BatteryProtect::default();
        let mut i: usize = 0;
        while i < 11
            invariant
                i <= 11,
                msg@.len() >= 22,
                forall|j: int|
                    0 <= j < i ==> spec_protect_field(protect, j) == spec_i16_from_bytes(
                        msg@[2 * j],
                        msg@[2 * j + 1],
                    ),
            decreases 11 - i,
        {
            let offset = i * 2;
            protect.set_value_at(i, i16_from_bytes(slice_subrange(msg, offset, offset + 2)));
            i = i + 1;
        }
        Ok(protect)
    }
}

} // verus!
