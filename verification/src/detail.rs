//! The battery detail record: the payload of a `0xDD03` response, a flat
//! record of scalar fields followed by the thermistor list.

use crate::ntc::ntc_payload_ok;
use crate::ntc::spec_ntc_readings;
use crate::ntc::NtcList;
use crate::protection_of_state::ProtectionOfState;
use crate::util::i16_from_bytes;
use crate::util::spec_i16_from_bytes;
use crate::ParseError;
use vstd::prelude::*;
use vstd::slice::slice_subrange;

verus! {

/// The detail record a `0xDD03` response carries: pack-level voltage,
/// current and capacity readings, production and equilibrium data, the
/// current protection state, and the thermistor readings.
#[derive(Debug, PartialEq, Eq)]
pub struct BatteryDetail {
    /// Total voltage (V).
    pub total_voltage: i16,
    /// Total current (A).
    pub current: i16,
    /// Residual capacity (Ah).
    pub residual_capacity: i16,
    /// Standard capacity (Ah).
    pub standard_capacity: i16,
    /// Charge/discharge cycles.
    pub cycles: i16,
    pub date_of_production: i16,
    pub equilibrium: i16,
    pub equilibrium_high: i16,
    pub protection_of_state: ProtectionOfState,
    pub software_version: u8,
    pub residual_capacity_percent: u8,
    pub control_state: u8,
    pub charge: bool,
    pub discharge: bool,
    pub battery_number: u8,
    pub list_ntc: Vec<i16>,
}

/// A detail payload is well-formed when the 22 fixed bytes are present and
/// the remainder is a well-formed NTC payload.
pub open spec fn detail_payload_ok(msg: Seq<u8>) -> bool {
    msg.len() >= 22 && ntc_payload_ok(msg.skip(22))
}

/// Whether the record holds exactly the fields encoded by the payload.
pub open spec fn detail_matches(msg: Seq<u8>, d: BatteryDetail) -> bool {
    &&& d.total_voltage == spec_i16_from_bytes(msg[0], msg[1])
    &&& d.current == spec_i16_from_bytes(msg[2], msg[3])
    &&& d.residual_capacity == spec_i16_from_bytes(msg[4], msg[5])
    &&& d.standard_capacity == spec_i16_from_bytes(msg[6], msg[7])
    &&& d.cycles == spec_i16_from_bytes(msg[8], msg[9])
    &&& d.date_of_production == spec_i16_from_bytes(msg[10], msg[11])
    &&& d.equilibrium == spec_i16_from_bytes(msg[12], msg[13])
    &&& d.equilibrium_high == spec_i16_from_bytes(msg[14], msg[15])
    &&& d.protection_of_state == ProtectionOfState(spec_i16_from_bytes(msg[16], msg[17]))
    &&& d.software_version == msg[18]
    &&& d.residual_capacity_percent == msg[19]
    &&& d.control_state == msg[20]
    &&& d.charge == ((msg[20] & 1) == 1)
    &&& d.discharge == ((msg[20] & 2) == 2)
    &&& d.battery_number == msg[21]
    &&& d.list_ntc@ == spec_ntc_readings(msg.skip(22))
}

impl BatteryDetail {
    /// Decode a detail payload: 22 fixed positional bytes, then the NTC
    /// list.  Fewer than 22 bytes, or a short NTC tail, is not enough
    /// data.
    pub fn parse_message(msg: &[u8]) -> (r: Result<BatteryDetail, ParseError>)
        ensures
            match r {
                Ok(d) => detail_payload_ok(msg@) && detail_matches(msg@, d),
                Err(e) => !detail_payload_ok(msg@) && e == ParseError::NotEnoughData,
            },
    {
        if msg.len() < 22 {
            return Err(ParseError::NotEnoughData);
        }

        let tail = slice_subrange(msg, 22, msg.len());
        let list_ntc = match NtcList::parse_message(tail) {
            Ok(list) => list.0,
            Err(e) => {
                return Err(e);
            },
        };

        let control_state = msg[20];
        Ok(BatteryDetail {
            total_voltage: i16_from_bytes(slice_subrange(msg, 0, 2)),
            current: i16_from_bytes(slice_subrange(msg, 2, 4)),
            residual_capacity: i16_from_bytes(slice_subrange(msg, 4, 6)),
            standard_capacity: i16_from_bytes(slice_subrange(msg, 6, 8)),
            cycles: i16_from_bytes(slice_subrange(msg, 8, 10)),
            date_of_production: i16_from_bytes(slice_subrange(msg, 10, 12)),
            equilibrium: i16_from_bytes(slice_subrange(msg, 12, 14)),
            equilibrium_high: i16_from_bytes(slice_subrange(msg, 14, 16)),
            protection_of_state: ProtectionOfState(i16_from_bytes(slice_subrange(msg, 16, 18))),
            software_version: msg[18],
            residual_capacity_percent: msg[19],
            control_state,
            charge: (control_state & 1) == 1,
            discharge: (control_state & 2) == 2,
            battery_number: msg[21],
            list_ntc,
        })
    }
}

} // verus!
