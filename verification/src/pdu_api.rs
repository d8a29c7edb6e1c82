//! The D-PDU adapter API, of which only the connection state is available.

use vstd::prelude::*;

verus! {

/// An adapter reached through the D-PDU API.
#[derive(Debug, Copy, Clone)]
pub struct DpduAPI {}

impl DpduAPI {
    /// A D-PDU adapter never holds an open channel.
    pub fn is_connected(&self) -> (r: bool)
        ensures
            !r,
    {
        false
    }
}

} // verus!
