//! Read Data By Identifier ($22).

use vstd::prelude::*;
use crate::protocols::kwp2000::read_ecu_identification::{u32_be, be32};

verus! {

/// The arguments that ask for the variant identifier (data identifier 0xF100).
pub fn read_variant_id_args() -> (r: [u8; 2])
    ensures
        r@ == seq![0xF1u8, 0x00u8],
{
    let r = [0xF1, 0x00];
    assert(r@ =~= seq![0xF1u8, 0x00u8]);
    r
}

/// Decodes the variant identifier from a reply: after the service byte and one more
/// byte, four bytes of big-endian value.
pub fn parse_variant_id(res: &[u8]) -> (r: u32)
    requires
        res@.len() >= 6,
    ensures
        r == be32(res@, 2),
{
    u32_be(res, 2)
}

} // verus!
