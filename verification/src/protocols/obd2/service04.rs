//! OBD-II service 04: clearing trouble codes.

use vstd::prelude::*;

verus! {

/// Service 04 of an ECU.
#[derive(Debug, Clone, Copy, PartialEq, Eq, Structural)]
pub struct Service04;

impl Service04 {
    /// The service byte of a request to clear the trouble codes.
    pub fn request_byte() -> (r: u8)
        ensures
            r == 0x04,
    {
        0x04
    }
}

} // verus!
