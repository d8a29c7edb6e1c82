//! Read Status Of Diagnostic Trouble Codes ($17).

use vstd::prelude::*;
use crate::protocols::DTC;

verus! {

/// The arguments that ask for the status of a code: the low two bytes of its
/// identifier, high byte first.
pub fn read_status_dtc_args(dtc: &DTC) -> (r: [u8; 2])
    ensures
        r@ == seq![((dtc.id / 256) % 256) as u8, (dtc.id % 256) as u8],
{
    let id = dtc.id;
    let hi = (id >> 8) as u8;
    let lo = id as u8;
    assert(hi == ((id / 256) % 256) as u8 && lo == (id % 256) as u8) by (bit_vector)
        requires hi == (id >> 8) as u8, lo == id as u8;
    [hi, lo]
}

} // verus!
