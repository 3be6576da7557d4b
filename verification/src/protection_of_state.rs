//! The single protection-state code carried inside a detail record.

use vstd::prelude::*;

verus! {

/// A 16-bit enumerated code naming the single fault (if any) currently
/// tripped.  The device defines the codes 0 through 11:
///
/// 0 none, 1 cell overvoltage, 2 cell undervoltage, 3 pack overvoltage,
/// 4 pack undervoltage, 5 high-temperature charging, 6 low-temperature
/// charging, 7 high-temperature discharging, 8 low-temperature
/// discharging, 9 over-current charging, 10 over-current discharging,
/// 11 short circuit.
#[derive(Clone, Copy, Debug, PartialEq, Eq, Structural)]
pub struct ProtectionOfState(pub i16);

} // verus!
