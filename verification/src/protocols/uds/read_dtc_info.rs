//! Read DTC Information ($19).

use vstd::prelude::*;
use crate::protocols::DTC;

verus! {

/// The arguments that ask for the extended data records of a code
/// (reportDTCExtendedDataRecordByDTCNumber): 0x06, then the low three bytes of the
/// code's identifier, high byte first.
pub fn read_dtc_information_args(dtc: &DTC) -> (r: [u8; 4])
    ensures
        r@ == seq![0x06u8, ((dtc.id / 0x10000) % 256) as u8, ((dtc.id / 256) % 256) as u8, (dtc.id % 256) as u8],
{
    let id = dtc.id;
    let a = (id >> 16) as u8;
    let b = (id >> 8) as u8;
    let c = id as u8;
    assert(a == ((id / 0x10000) % 256) as u8 && b == ((id / 256) % 256) as u8 && c == (id % 256) as u8) by (bit_vector)
        requires a == (id >> 16) as u8, b == (id >> 8) as u8, c == id as u8;
    let r = [0x06, a, b, c];
    assert(r@ =~= seq![0x06u8, a, b, c]);
    r
}

} // verus!
