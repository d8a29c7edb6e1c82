//! OBD-II service 01: live data. Which parameters (PIDs) an ECU supports, their
//! descriptions, and the text of the parameters that are enumerations.

use vstd::prelude::*;
use vstd::string::*;
use crate::text::{push_str, push_hex2, hex2};
use crate::protocols::{ProtocolError, ECUError};
use crate::protocols::obd2::{ObdError, OBDError, get_obd_bits, obd_bits};

verus! {

/// The descriptions of the values a parameter carries (one for most parameters, two for
/// the oxygen sensors), or none for a parameter that is not decoded.
pub open spec fn pid_desc(pid: u8) -> Option<Seq<Seq<char>>> {
    if pid == 0x03 { Some(seq!["Fuel system status"@]) }
    else if pid == 0x04 { Some(seq!["Calculated engine load"@]) }
    else if pid == 0x05 { Some(seq!["Engine coolant tempurature"@]) }
    else if pid == 0x06 { Some(seq!["Short term fuel trim - Bank 1"@]) }
    else if pid == 0x07 { Some(seq!["Long term fuel trim - Bank 1"@]) }
    else if pid == 0x08 { Some(seq!["Short term fuel trim - Bank 2"@]) }
    else if pid == 0x09 { Some(seq!["Long term fuel trim - Bank 2"@]) }
    else if pid == 0x0A { Some(seq!["Fuel pressure"@]) }
    else if pid == 0x0B { Some(seq!["Intake manifold absolute pressure"@]) }
    else if pid == 0x0C { Some(seq!["Engine speed"@]) }
    else if pid == 0x0D { Some(seq!["Vehicle speed"@]) }
    else if pid == 0x0E { Some(seq!["Timing advance"@]) }
    else if pid == 0x0F { Some(seq!["Intake air temperature"@]) }
    else if pid == 0x10 { Some(seq!["Mass air flow sensor (MAF)"@]) }
    else if pid == 0x11 { Some(seq!["Throttle position"@]) }
    else if pid == 0x12 { Some(seq!["Commanded secondary air status"@]) }
    else if pid == 0x14 { Some(seq!["O2 sensor 1 voltage"@, "O2 sensor 1 short fuel trim"@]) }
    else if pid == 0x15 { Some(seq!["O2 sensor 2 voltage"@, "O2 sensor 2 short fuel trim"@]) }
    else if pid == 0x16 { Some(seq!["O2 sensor 3 voltage"@, "O2 sensor 3 short fuel trim"@]) }
    else if pid == 0x17 { Some(seq!["O2 sensor 4 voltage"@, "O2 sensor 4 short fuel trim"@]) }
    else if pid == 0x18 { Some(seq!["O2 sensor 5 voltage"@, "O2 sensor 5 short fuel trim"@]) }
    else if pid == 0x19 { Some(seq!["O2 sensor 6 voltage"@, "O2 sensor 6 short fuel trim"@]) }
    else if pid == 0x1A { Some(seq!["O2 sensor 7 voltage"@, "O2 sensor 7 short fuel trim"@]) }
    else if pid == 0x1B { Some(seq!["O2 sensor 8 voltage"@, "O2 sensor 8 short fuel trim"@]) }
    else if pid == 0x1C { Some(seq!["OBD standards supported"@]) }
    else if pid == 0x1E { Some(seq!["AUX input status"@]) }
    else if pid == 0x1F { Some(seq!["Run time since engine start"@]) }
    else if pid == 0x21 { Some(seq!["Distance traveled with MIL on"@]) }
    else if pid == 0x22 { Some(seq!["Fuel rail pressure"@]) }
    else if pid == 0x23 { Some(seq!["Fuel rail gauge pressure"@]) }
    else if pid == 0x24 { Some(seq!["O2 sensor 1 Air-fuel ratio"@, "O2 sensor 1 voltage"@]) }
    else if pid == 0x25 { Some(seq!["O2 sensor 2 Air-fuel ratio"@, "O2 sensor 2 voltage"@]) }
    else if pid == 0x26 { Some(seq!["O2 sensor 3 Air-fuel ratio"@, "O2 sensor 3 voltage"@]) }
    else if pid == 0x27 { Some(seq!["O2 sensor 4 Air-fuel ratio"@, "O2 sensor 4 voltage"@]) }
    else if pid == 0x28 { Some(seq!["O2 sensor 5 Air-fuel ratio"@, "O2 sensor 5 voltage"@]) }
    else if pid == 0x29 { Some(seq!["O2 sensor 6 Air-fuel ratio"@, "O2 sensor 6 voltage"@]) }
    else if pid == 0x2A { Some(seq!["O2 sensor 7 Air-fuel ratio"@, "O2 sensor 7 voltage"@]) }
    else if pid == 0x2B { Some(seq!["O2 sensor 8 Air-fuel ratio"@, "O2 sensor 8 voltage"@]) }
    else if pid == 0x2C { Some(seq!["Commanded EGR"@]) }
    else if pid == 0x2D { Some(seq!["EGR Error"@]) }
    else if pid == 0x2E { Some(seq!["Commanded evaporative purge"@]) }
    else if pid == 0x2F { Some(seq!["Fuel tank level input"@]) }
    else if pid == 0x31 { Some(seq!["Distance traveled since codes cleared"@]) }
    else if pid == 0x32 { Some(seq!["Evap. System vapor pressure"@]) }
    else if pid == 0x33 { Some(seq!["Absolute barometric pressure"@]) }
    else if pid == 0x34 { Some(seq!["O2 sensor 1 Air-fuel ratio"@, "O2 sensor 1 current"@]) }
    else if pid == 0x35 { Some(seq!["O2 sensor 2 Air-fuel ratio"@, "O2 sensor 2 current"@]) }
    else if pid == 0x36 { Some(seq!["O2 sensor 3 Air-fuel ratio"@, "O2 sensor 3 current"@]) }
    else if pid == 0x37 { Some(seq!["O2 sensor 4 Air-fuel ratio"@, "O2 sensor 4 current"@]) }
    else if pid == 0x38 { Some(seq!["O2 sensor 5 Air-fuel ratio"@, "O2 sensor 5 current"@]) }
    else if pid == 0x39 { Some(seq!["O2 sensor 6 Air-fuel ratio"@, "O2 sensor 6 current"@]) }
    else if pid == 0x3A { Some(seq!["O2 sensor 7 Air-fuel ratio"@, "O2 sensor 7 current"@]) }
    else if pid == 0x3B { Some(seq!["O2 sensor 8 Air-fuel ratio"@, "O2 sensor 8 current"@]) }
    else if pid == 0x3C { Some(seq!["Catalyst temperature. Bank 1, Sensor 1"@]) }
    else if pid == 0x3D { Some(seq!["Catalyst temperature. Bank 2, Sensor 1"@]) }
    else if pid == 0x3E { Some(seq!["Catalyst temperature. Bank 1, Sensor 2"@]) }
    else if pid == 0x3F { Some(seq!["Catalyst temperature. Bank 2, Sensor 2"@]) }
    else if pid == 0x42 { Some(seq!["Control module voltage"@]) }
    else if pid == 0x43 { Some(seq!["Absolute load value"@]) }
    else if pid == 0x44 { Some(seq!["Commanded air-fuel ratio"@]) }
    else if pid == 0x45 { Some(seq!["Relative throttle position"@]) }
    else if pid == 0x46 { Some(seq!["Ambient air temperature"@]) }
    else if pid == 0x47 { Some(seq!["Absolute throttle position B"@]) }
    else if pid == 0x48 { Some(seq!["Absolute throttle position C"@]) }
    else if pid == 0x49 { Some(seq!["Accelerator pedal position D"@]) }
    else if pid == 0x4A { Some(seq!["Accelerator pedal position E"@]) }
    else if pid == 0x4B { Some(seq!["Accelerator pedal position F"@]) }
    else if pid == 0x4C { Some(seq!["Commanded throttle actuator"@]) }
    else if pid == 0x4D { Some(seq!["Time with MIL on"@]) }
    else if pid == 0x4E { Some(seq!["Time since trouble code cleared"@]) }
    else if pid == 0x51 { Some(seq!["Fuel type"@]) }
    else if pid == 0x52 { Some(seq!["Ethanol fuel percentage"@]) }
    else if pid == 0x53 { Some(seq!["Absolute Evap system vapor pressure"@]) }
    else if pid == 0x54 { Some(seq!["Evap system vapor pressure"@]) }
    else if pid == 0x55 { Some(seq!["Short term secondary oxygen trim bank 1"@, "Short term secondary oxygen trim bank 3"@]) }
    else if pid == 0x56 { Some(seq!["Long term secondary oxygen trim bank 1"@, "Long term secondary oxygen trim bank 3"@]) }
    else if pid == 0x57 { Some(seq!["Short term secondary oxygen trim bank 2"@, "Short term secondary oxygen trim bank 4"@]) }
    else if pid == 0x58 { Some(seq!["Long term secondary oxygen trim bank 2"@, "Long term secondary oxygen trim bank 4"@]) }
    else if pid == 0x59 { Some(seq!["Fuel rail absolute pressure"@]) }
    else if pid == 0x5A { Some(seq!["Relative accelerator pedal position"@]) }
    else if pid == 0x5B { Some(seq!["Hybrid battery pack remaining life"@]) }
    else if pid == 0x5C { Some(seq!["Engine oil temperature"@]) }
    else if pid == 0x5D { Some(seq!["Fuel injection timing"@]) }
    else if pid == 0x5E { Some(seq!["Engine fuel rate"@]) }
    else if pid == 0xC0 { Some(seq!["Odometer reading"@]) }
    else { None }
}

/// The descriptions of the values a parameter carries.
pub fn pid_descriptions(pid: u8) -> (r: Option<Vec<&'static str>>)
    ensures
        match (r, pid_desc(pid)) {
            (Some(v), Some(d)) => v@.len() == d.len() && forall|i: int| 0 <= i < d.len() ==> #[trigger] v@[i]@ == d[i],
            (None, None) => true,
            _ => false,
        },
{
    let mut v: Vec<&'static str> = Vec::new();
    match pid {
        0x03 => { v.push("Fuel system status"); },
        0x04 => { v.push("Calculated engine load"); },
        0x05 => { v.push("Engine coolant tempurature"); },
        0x06 => { v.push("Short term fuel trim - Bank 1"); },
        0x07 => { v.push("Long term fuel trim - Bank 1"); },
        0x08 => { v.push("Short term fuel trim - Bank 2"); },
        0x09 => { v.push("Long term fuel trim - Bank 2"); },
        0x0A => { v.push("Fuel pressure"); },
        0x0B => { v.push("Intake manifold absolute pressure"); },
        0x0C => { v.push("Engine speed"); },
        0x0D => { v.push("Vehicle speed"); },
        0x0E => { v.push("Timing advance"); },
        0x0F => { v.push("Intake air temperature"); },
        0x10 => { v.push("Mass air flow sensor (MAF)"); },
        0x11 => { v.push("Throttle position"); },
        0x12 => { v.push("Commanded secondary air status"); },
        0x14 => { v.push("O2 sensor 1 voltage"); v.push("O2 sensor 1 short fuel trim"); },
        0x15 => { v.push("O2 sensor 2 voltage"); v.push("O2 sensor 2 short fuel trim"); },
        0x16 => { v.push("O2 sensor 3 voltage"); v.push("O2 sensor 3 short fuel trim"); },
        0x17 => { v.push("O2 sensor 4 voltage"); v.push("O2 sensor 4 short fuel trim"); },
        0x18 => { v.push("O2 sensor 5 voltage"); v.push("O2 sensor 5 short fuel trim"); },
        0x19 => { v.push("O2 sensor 6 voltage"); v.push("O2 sensor 6 short fuel trim"); },
        0x1A => { v.push("O2 sensor 7 voltage"); v.push("O2 sensor 7 short fuel trim"); },
        0x1B => { v.push("O2 sensor 8 voltage"); v.push("O2 sensor 8 short fuel trim"); },
        0x1C => { v.push("OBD standards supported"); },
        0x1E => { v.push("AUX input status"); },
        0x1F => { v.push("Run time since engine start"); },
        0x21 => { v.push("Distance traveled with MIL on"); },
        0x22 => { v.push("Fuel rail pressure"); },
        0x23 => { v.push("Fuel rail gauge pressure"); },
        0x24 => { v.push("O2 sensor 1 Air-fuel ratio"); v.push("O2 sensor 1 voltage"); },
        0x25 => { v.push("O2 sensor 2 Air-fuel ratio"); v.push("O2 sensor 2 voltage"); },
        0x26 => { v.push("O2 sensor 3 Air-fuel ratio"); v.push("O2 sensor 3 voltage"); },
        0x27 => { v.push("O2 sensor 4 Air-fuel ratio"); v.push("O2 sensor 4 voltage"); },
        0x28 => { v.push("O2 sensor 5 Air-fuel ratio"); v.push("O2 sensor 5 voltage"); },
        0x29 => { v.push("O2 sensor 6 Air-fuel ratio"); v.push("O2 sensor 6 voltage"); },
        0x2A => { v.push("O2 sensor 7 Air-fuel ratio"); v.push("O2 sensor 7 voltage"); },
        0x2B => { v.push("O2 sensor 8 Air-fuel ratio"); v.push("O2 sensor 8 voltage"); },
        0x2C => { v.push("Commanded EGR"); },
        0x2D => { v.push("EGR Error"); },
        0x2E => { v.push("Commanded evaporative purge"); },
        0x2F => { v.push("Fuel tank level input"); },
        0x31 => { v.push("Distance traveled since codes cleared"); },
        0x32 => { v.push("Evap. System vapor pressure"); },
        0x33 => { v.push("Absolute barometric pressure"); },
        0x34 => { v.push("O2 sensor 1 Air-fuel ratio"); v.push("O2 sensor 1 current"); },
        0x35 => { v.push("O2 sensor 2 Air-fuel ratio"); v.push("O2 sensor 2 current"); },
        0x36 => { v.push("O2 sensor 3 Air-fuel ratio"); v.push("O2 sensor 3 current"); },
        0x37 => { v.push("O2 sensor 4 Air-fuel ratio"); v.push("O2 sensor 4 current"); },
        0x38 => { v.push("O2 sensor 5 Air-fuel ratio"); v.push("O2 sensor 5 current"); },
        0x39 => { v.push("O2 sensor 6 Air-fuel ratio"); v.push("O2 sensor 6 current"); },
        0x3A => { v.push("O2 sensor 7 Air-fuel ratio"); v.push("O2 sensor 7 current"); },
        0x3B => { v.push("O2 sensor 8 Air-fuel ratio"); v.push("O2 sensor 8 current"); },
        0x3C => { v.push("Catalyst temperature. Bank 1, Sensor 1"); },
        0x3D => { v.push("Catalyst temperature. Bank 2, Sensor 1"); },
        0x3E => { v.push("Catalyst temperature. Bank 1, Sensor 2"); },
        0x3F => { v.push("Catalyst temperature. Bank 2, Sensor 2"); },
        0x42 => { v.push("Control module voltage"); },
        0x43 => { v.push("Absolute load value"); },
        0x44 => { v.push("Commanded air-fuel ratio"); },
        0x45 => { v.push("Relative throttle position"); },
        0x46 => { v.push("Ambient air temperature"); },
        0x47 => { v.push("Absolute throttle position B"); },
        0x48 => { v.push("Absolute throttle position C"); },
        0x49 => { v.push("Accelerator pedal position D"); },
        0x4A => { v.push("Accelerator pedal position E"); },
        0x4B => { v.push("Accelerator pedal position F"); },
        0x4C => { v.push("Commanded throttle actuator"); },
        0x4D => { v.push("Time with MIL on"); },
        0x4E => { v.push("Time since trouble code cleared"); },
        0x51 => { v.push("Fuel type"); },
        0x52 => { v.push("Ethanol fuel percentage"); },
        0x53 => { v.push("Absolute Evap system vapor pressure"); },
        0x54 => { v.push("Evap system vapor pressure"); },
        0x55 => { v.push("Short term secondary oxygen trim bank 1"); v.push("Short term secondary oxygen trim bank 3"); },
        0x56 => { v.push("Long term secondary oxygen trim bank 1"); v.push("Long term secondary oxygen trim bank 3"); },
        0x57 => { v.push("Short term secondary oxygen trim bank 2"); v.push("Short term secondary oxygen trim bank 4"); },
        0x58 => { v.push("Long term secondary oxygen trim bank 2"); v.push("Long term secondary oxygen trim bank 4"); },
        0x59 => { v.push("Fuel rail absolute pressure"); },
        0x5A => { v.push("Relative accelerator pedal position"); },
        0x5B => { v.push("Hybrid battery pack remaining life"); },
        0x5C => { v.push("Engine oil temperature"); },
        0x5D => { v.push("Fuel injection timing"); },
        0x5E => { v.push("Engine fuel rate"); },
        0xC0 => { v.push("Odometer reading"); },
        _ => { return None; },
    }
    Some(v)
}

/// The fuel system status (PID 0x03).
pub open spec fn fuel_status_text(a: u8) -> Option<Seq<char>> {
    if a == 0 { Some("Engine off"@) }
    else if a == 1 { Some("Open loop due to insufficient engine temperature"@) }
    else if a == 2 { Some("Closed loop, using O2 sensor feedback"@) }
    else if a == 4 { Some("Open loop due to engine load OR fuel cut due to deceleration"@) }
    else if a == 8 { Some("Open loop due to system failure"@) }
    else if a == 16 { Some("Closed loop, using at least 1 O2 sensor but fault detected"@) }
    else { None }
}

/// The fuel system status (PID 0x03). Unknown values read `Unknown. Raw: 0x..`.
pub fn get_fuel_status(a: u8) -> (r: String)
    ensures
        r@ == match fuel_status_text(a) { Some(t) => t, None => "Unknown. Raw: 0x"@ + hex2(a) },
{
    let t: &str = match a {
        0 => "Engine off",
        1 => "Open loop due to insufficient engine temperature",
        2 => "Closed loop, using O2 sensor feedback",
        4 => "Open loop due to engine load OR fuel cut due to deceleration",
        8 => "Open loop due to system failure",
        16 => "Closed loop, using at least 1 O2 sensor but fault detected",
        _ => {
            let mut s = String::new();
            proof { reveal_strlit("Unknown. Raw: 0x"); }
            push_str(&mut s, "Unknown. Raw: 0x");
            push_hex2(&mut s, a);
            return s;
        },
    };
    String::from_str(t)
}

/// The commanded secondary air status (PID 0x12).
pub open spec fn secondary_air_text(a: u8) -> Option<Seq<char>> {
    if a == 1 { Some("Upstream"@) }
    else if a == 2 { Some("Downstream of catalytic converter"@) }
    else if a == 4 { Some("From the outside atmosphere or off"@) }
    else if a == 8 { Some("Pump commanded on for diagnostics"@) }
    else { None }
}

/// The commanded secondary air status (PID 0x12). Unknown values read `Unknown. Raw: 0x..`.
pub fn get_secondary_air_status(a: u8) -> (r: String)
    ensures
        r@ == match secondary_air_text(a) { Some(t) => t, None => "Unknown. Raw: 0x"@ + hex2(a) },
{
    let t: &str = match a {
        1 => "Upstream",
        2 => "Downstream of catalytic converter",
        4 => "From the outside atmosphere or off",
        8 => "Pump commanded on for diagnostics",
        _ => {
            let mut s = String::new();
            proof { reveal_strlit("Unknown. Raw: 0x"); }
            push_str(&mut s, "Unknown. Raw: 0x");
            push_hex2(&mut s, a);
            return s;
        },
    };
    String::from_str(t)
}

/// The OBD standard a vehicle conforms to (PID 0x1C).
pub open spec fn obd_standard_text(a: u8) -> Option<Seq<char>> {
    if a == 1 { Some("OBD-II as defined by CARB"@) }
    else if a == 2 { Some("OBD as defined by EPA"@) }
    else if a == 3 { Some("OBD and OBD-II"@) }
    else if a == 4 { Some("OBD-I"@) }
    else if a == 5 { Some("Not OBD compliant"@) }
    else if a == 6 { Some("EOBD (Europe)"@) }
    else if a == 7 { Some("EOBD and OBD-II"@) }
    else if a == 8 { Some("EOBD and OBD"@) }
    else if a == 9 { Some("EOBD, OBD and OBD-II"@) }
    else if a == 10 { Some("JOBD (Japan)"@) }
    else if a == 11 { Some("JOBD and OBD-II"@) }
    else if a == 12 { Some("JOBD and EOBD"@) }
    else if a == 13 { Some("JOBD, EOBD and OBD-II"@) }
    else if a == 17 { Some("Engine manufacturer diagnostics (EMD)"@) }
    else if a == 18 { Some("Engine manufacturer diagnostics enhanced (EMB+)"@) }
    else if a == 19 { Some("Heavy Duty OBD (Child/Partial) (HD OBD-C)"@) }
    else if a == 20 { Some("Heavy Duty OBD (HD OBD)"@) }
    else if a == 23 { Some("heavy Duty Euro OBD Stage I without NOx control (HD EOBD-I)"@) }
    else if a == 24 { Some("heavy Duty Euro OBD Stage I with NOx control (HD EOBD-I N)"@) }
    else if a == 25 { Some("heavy Duty Euro OBD Stage II without NOx control (HD EOBD-II)"@) }
    else if a == 26 { Some("heavy Duty Euro OBD Stage II with NOx control (HD EOBD-II N)"@) }
    else if a == 28 { Some("Brazil OBD Phase 1 (OBDBr-1)"@) }
    else if a == 29 { Some("Brazil OBD Phase 2 (OBDBr-2)"@) }
    else if a == 30 { Some("Korean OBD (KOBD)"@) }
    else if a == 31 { Some("India OBD-I (IOBD-I)"@) }
    else if a == 32 { Some("India OBD-II (IOBD-II)"@) }
    else if a == 33 { Some("heavy Duty Euro OBD Stage IV (HD EOBD-IV)"@) }
    else if a == 14 || a == 15 || a == 16 || a == 22 || a == 27 || 34 <= a <= 250 { Some("Reserved"@) }
    else if 251 <= a <= 255 { Some("Not avaliable for assignment (SAE J1939 special meaning)"@) }
    else { None }
}

/// The OBD standard a vehicle conforms to (PID 0x1C). Unknown values read `Unknown. Raw: 0x..`.
pub fn get_obd_standard(a: u8) -> (r: String)
    ensures
        r@ == match obd_standard_text(a) { Some(t) => t, None => "Unknown. Raw: 0x"@ + hex2(a) },
{
    let t: &str = match a {
        1 => "OBD-II as defined by CARB",
        2 => "OBD as defined by EPA",
        3 => "OBD and OBD-II",
        4 => "OBD-I",
        5 => "Not OBD compliant",
        6 => "EOBD (Europe)",
        7 => "EOBD and OBD-II",
        8 => "EOBD and OBD",
        9 => "EOBD, OBD and OBD-II",
        10 => "JOBD (Japan)",
        11 => "JOBD and OBD-II",
        12 => "JOBD and EOBD",
        13 => "JOBD, EOBD and OBD-II",
        17 => "Engine manufacturer diagnostics (EMD)",
        18 => "Engine manufacturer diagnostics enhanced (EMB+)",
        19 => "Heavy Duty OBD (Child/Partial) (HD OBD-C)",
        20 => "Heavy Duty OBD (HD OBD)",
        23 => "heavy Duty Euro OBD Stage I without NOx control (HD EOBD-I)",
        24 => "heavy Duty Euro OBD Stage I with NOx control (HD EOBD-I N)",
        25 => "heavy Duty Euro OBD Stage II without NOx control (HD EOBD-II)",
        26 => "heavy Duty Euro OBD Stage II with NOx control (HD EOBD-II N)",
        28 => "Brazil OBD Phase 1 (OBDBr-1)",
        29 => "Brazil OBD Phase 2 (OBDBr-2)",
        30 => "Korean OBD (KOBD)",
        31 => "India OBD-I (IOBD-I)",
        32 => "India OBD-II (IOBD-II)",
        33 => "heavy Duty Euro OBD Stage IV (HD EOBD-IV)",
        14 | 15 | 16 | 22 | 27 | 34..=250 => "Reserved",
        251..=255 => "Not avaliable for assignment (SAE J1939 special meaning)",
        _ => {
            let mut s = String::new();
            proof { reveal_strlit("Unknown. Raw: 0x"); }
            push_str(&mut s, "Unknown. Raw: 0x");
            push_hex2(&mut s, a);
            return s;
        },
    };
    String::from_str(t)
}

/// The fuel type (PID 0x51).
pub open spec fn fuel_type_text(a: u8) -> Option<Seq<char>> {
    if a == 0 { Some("Not avaliable"@) }
    else if a == 1 { Some("Gasoline"@) }
    else if a == 2 { Some("Methanol"@) }
    else if a == 3 { Some("Ethanol"@) }
    else if a == 4 { Some("Diesel"@) }
    else if a == 5 { Some("LPG"@) }
    else if a == 6 { Some("CNG"@) }
    else if a == 7 { Some("Propane"@) }
    else if a == 8 { Some("Electric"@) }
    else if a == 9 { Some("Bifuel running Gasoline"@) }
    else if a == 10 { Some("Bifuel running Methanol"@) }
    else if a == 11 { Some("Bifuel running Ethanol"@) }
    else if a == 12 { Some("Bifuel running LPG"@) }
    else if a == 13 { Some("Bifuel running CNG"@) }
    else if a == 14 { Some("Bifuel running Propane"@) }
    else if a == 15 { Some("Bifuel running Electricity"@) }
    else if a == 16 { Some("Bifuel running electric and combustion engine"@) }
    else if a == 17 { Some("Hybrid Gasoline"@) }
    else if a == 18 { Some("Hybrid Ethanol"@) }
    else if a == 19 { Some("Hybrid Diesel"@) }
    else if a == 20 { Some("Hybrid Electric"@) }
    else if a == 21 { Some("Hybrid running electric and combustion engine"@) }
    else if a == 22 { Some("Hybrid Regenerative"@) }
    else if a == 23 { Some("Bifuel running Diesel"@) }
    else { None }
}

/// The fuel type (PID 0x51). Unknown values read `Unknown. Raw: 0x..`.
pub fn get_fuel_type(a: u8) -> (r: String)
    ensures
        r@ == match fuel_type_text(a) { Some(t) => t, None => "Unknown. Raw: 0x"@ + hex2(a) },
{
    let t: &str = match a {
        0 => "Not avaliable",
        1 => "Gasoline",
        2 => "Methanol",
        3 => "Ethanol",
        4 => "Diesel",
        5 => "LPG",
        6 => "CNG",
        7 => "Propane",
        8 => "Electric",
        9 => "Bifuel running Gasoline",
        10 => "Bifuel running Methanol",
        11 => "Bifuel running Ethanol",
        12 => "Bifuel running LPG",
        13 => "Bifuel running CNG",
        14 => "Bifuel running Propane",
        15 => "Bifuel running Electricity",
        16 => "Bifuel running electric and combustion engine",
        17 => "Hybrid Gasoline",
        18 => "Hybrid Ethanol",
        19 => "Hybrid Diesel",
        20 => "Hybrid Electric",
        21 => "Hybrid running electric and combustion engine",
        22 => "Hybrid Regenerative",
        23 => "Bifuel running Diesel",
        _ => {
            let mut s = String::new();
            proof { reveal_strlit("Unknown. Raw: 0x"); }
            push_str(&mut s, "Unknown. Raw: 0x");
            push_hex2(&mut s, a);
            return s;
        },
    };
    String::from_str(t)
}

/// Service 01 of an ECU: which parameters it supports.
#[derive(Debug, Clone)]
pub struct Service01 {
    supported_pids: Vec<bool>,
}

/// A parameter is supported when its bit (parameter 1 is bit 0) is set.
pub open spec fn pid_supported(bits: Seq<bool>, pid: u8) -> bool {
    1 <= pid && pid - 1 < bits.len() && bits[pid - 1]
}

/// The chartable parameters among 1..`n`: those supported that have descriptions, in order.
pub open spec fn chartable_upto(bits: Seq<bool>, n: int) -> Seq<u8>
    decreases n,
{
    if n <= 1 {
        Seq::empty()
    } else {
        let pid = (n - 1) as u8;
        let before = chartable_upto(bits, n - 1);
        if pid_supported(bits, pid) && pid_desc(pid) is Some {
            before.push(pid)
        } else {
            before
        }
    }
}

/// After the support block starting at `after` was read, the next block to ask for: the
/// first of the markers 0x20, 0x40, .. 0xC0 past `after` that the ECU reports supported.
pub open spec fn next_support_block(bits: Seq<bool>, after: int) -> Option<u8>
    decreases 0xE0 - after,
{
    if after >= 0xC0 {
        None
    } else if pid_supported(bits, (after + 0x20) as u8) {
        Some((after + 0x20) as u8)
    } else {
        next_support_block(bits, after + 0x20)
    }
}

impl Service01 {
    /// The support bits, parameter 1 first.
    pub closed spec fn bits(&self) -> Seq<bool> {
        self.supported_pids@
    }

    /// The service as first learnt from an ECU: the support bits of parameters 1 to 32,
    /// read from the reply to a request for PID 0x00 (the bytes after service and PID).
    pub fn from_reply(res: &[u8]) -> (r: Self)
        requires
            res@.len() >= 2,
            8 * res@.len() <= usize::MAX,
        ensures
            r.bits() == obd_bits(res@.subrange(2, res@.len() as int)),
    {
        let (_head, tail) = res.split_at(2);
        assert(tail@ =~= res@.subrange(2, res@.len() as int));
        Service01 { supported_pids: get_obd_bits(tail) }
    }

    /// Adds the support bits of the next block of 32 parameters, read from a reply.
    pub fn extend_from_reply(&mut self, res: &[u8])
        requires
            res@.len() >= 2,
            8 * res@.len() <= usize::MAX,
            old(self).bits().len() + 8 * res@.len() <= usize::MAX,
        ensures
            final(self).bits() == old(self).bits() + obd_bits(res@.subrange(2, res@.len() as int)),
    {
        let (_head, tail) = res.split_at(2);
        assert(tail@ =~= res@.subrange(2, res@.len() as int));
        let mut more = get_obd_bits(tail);
        self.supported_pids.append(&mut more);
    }

    /// Which support block to ask for after the block starting at `after` (0x00 first):
    /// the ECU reports the next blocks through the last parameter of each block it sent.
    pub fn next_support_query(&self, after: u8) -> (r: Option<u8>)
        requires
            after % 0x20 == 0,
            after <= 0xC0,
        ensures
            r == next_support_block(self.bits(), after as int),
        decreases 0xC0 - after,
    {
        if after >= 0xC0 {
            return None;
        }
        let marker = after + 0x20;
        if self.check_service_supported(marker).is_ok() {
            Some(marker)
        } else {
            self.next_support_query(marker)
        }
    }

    /// Whether the ECU supports a parameter; parameter 0 is the support query itself.
    pub fn check_service_supported(&self, pid: u8) -> (r: OBDError<()>)
        requires
            pid >= 1,
        ensures
            pid_supported(self.bits(), pid) ==> r is Ok,
            !pid_supported(self.bits(), pid) ==> (r matches Err(e) && e == ProtocolError::ProtocolError(ECUError::OBD(ObdError::CmdNotSupported))),
    {
        let idx = (pid - 1) as usize;
        if idx < self.supported_pids.len() && self.supported_pids[idx] {
            Ok(())
        } else {
            Err(ProtocolError::ProtocolError(ECUError::OBD(ObdError::CmdNotSupported)))
        }
    }

    /// The supported parameters that can be charted, with their descriptions, in PID order.
    pub fn get_supported_chartable_pids(&self) -> (r: Vec<(u8, Vec<&'static str>)>)
        ensures
            r@.len() == chartable_upto(self.bits(), 0xFF).len(),
            forall|k: int| 0 <= k < r@.len() ==> {
                let pid = #[trigger] r@[k].0;
                &&& pid == chartable_upto(self.bits(), 0xFF)[k]
                &&& (pid_desc(pid) matches Some(d) && r@[k].1@.len() == d.len()
                    && forall|i: int| 0 <= i < d.len() ==> r@[k].1@[i]@ == d[i])
            },
    {
        let mut r: Vec<(u8, Vec<&'static str>)> = Vec::new();
        let mut pid: u8 = 1;
        while pid < 0xFF
            invariant
                1 <= pid <= 0xFF,
                r@.len() == chartable_upto(self.bits(), pid as int).len(),
                forall|k: int| 0 <= k < r@.len() ==> {
                    let p = #[trigger] r@[k].0;
                    &&& p == chartable_upto(self.bits(), pid as int)[k]
                    &&& (pid_desc(p) matches Some(d) && r@[k].1@.len() == d.len()
                        && forall|i: int| 0 <= i < d.len() ==> r@[k].1@[i]@ == d[i])
                },
            decreases 0xFF - pid,
        {
            let ok = self.check_service_supported(pid).is_ok();
            if ok {
                match pid_descriptions(pid) {
                    Some(d) => { r.push((pid, d)); },
                    None => {},
                }
            }
            assert((pid + 1 - 1) as u8 == pid);
            pid = pid + 1;
        }
        r
    }
}

} // verus!
