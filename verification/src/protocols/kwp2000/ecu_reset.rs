//! ECU Reset ($11): asks an ECU to reset itself, whole or in part.

use vstd::prelude::*;

verus! {

/// The kind of reset requested.
#[derive(Debug, Copy, Clone, PartialEq, Eq, Structural)]
pub enum ResetType {
    PowerOnReset,
    MemoryReset,
}

impl ResetType {
    /// The byte that requests the reset.
    pub fn to_byte(&self) -> (r: u8)
        ensures
            r == (match *self { ResetType::PowerOnReset => 0x01u8, ResetType::MemoryReset => 0x82u8 }),
    {
        match self {
            ResetType::PowerOnReset => 0x01,
            ResetType::MemoryReset => 0x82,
        }
    }
}

} // verus!
