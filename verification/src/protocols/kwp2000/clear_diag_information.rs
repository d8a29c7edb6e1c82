//! Clear Diagnostic Information ($14): clears trouble codes and the information stored
//! with them in the ECU's memory.

use vstd::prelude::*;

verus! {

/// A group of trouble codes that can be cleared at once.
#[derive(Debug, Copy, Clone, PartialEq, Eq, Structural)]
pub enum DTCGroup {
    Powertrain,
    Chassis,
    Body,
    Network,
    All,
}

/// The two-byte value that names a group of codes.
pub open spec fn dtc_group_value(g: DTCGroup) -> u16 {
    match g {
        DTCGroup::Powertrain => 0x0000,
        DTCGroup::Chassis => 0x4000,
        DTCGroup::Body => 0x8000,
        DTCGroup::Network => 0xC000,
        DTCGroup::All => 0xFF00,
    }
}

impl DTCGroup {
    /// The two-byte value that names the group.
    pub fn value(&self) -> (r: u16)
        ensures
            r == dtc_group_value(*self),
    {
        match self {
            DTCGroup::Powertrain => 0x0000,
            DTCGroup::Chassis => 0x4000,
            DTCGroup::Body => 0x8000,
            DTCGroup::Network => 0xC000,
            DTCGroup::All => 0xFF00,
        }
    }
}

/// The arguments that clear one code: its two bytes, high byte first.
pub fn clear_custom_dtc_args(code: u16) -> (r: [u8; 2])
    ensures
        r@ == seq![(code / 256) as u8, (code % 256) as u8],
{
    let hi = (code >> 8) as u8;
    let lo = code as u8;
    assert(hi == (code / 256) as u8 && lo == (code % 256) as u8) by (bit_vector)
        requires hi == (code >> 8) as u8, lo == code as u8;
    [hi, lo]
}

/// The arguments that clear a group of codes: the group's value, high byte first.
pub fn clear_dtc_group_args(group: DTCGroup) -> (r: [u8; 2])
    ensures
        r@ == seq![(dtc_group_value(group) / 256) as u8, (dtc_group_value(group) % 256) as u8],
{
    clear_custom_dtc_args(group.value())
}

} // verus!
