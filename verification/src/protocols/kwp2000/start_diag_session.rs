//! Start Diagnostic Session ($10): enables a kind of diagnostic session in an ECU; a
//! service can only run in the sessions that support it.

use vstd::prelude::*;

verus! {

/// A diagnostic session that can be started.
#[derive(Debug, Copy, Clone, PartialEq, Eq, Structural)]
pub enum DiagSession {
    Default,
    Flash,
    Standby,
    Passive,
    Extended,
}

impl DiagSession {
    /// The byte that requests the session.
    pub fn to_byte(&self) -> (r: u8)
        ensures
            r == (match *self {
                DiagSession::Default => 0x81u8,
                DiagSession::Flash => 0x85u8,
                DiagSession::Standby => 0x89u8,
                DiagSession::Passive => 0x90u8,
                DiagSession::Extended => 0x92u8,
            }),
    {
        match self {
            DiagSession::Default => 0x81,
            DiagSession::Flash => 0x85,
            DiagSession::Standby => 0x89,
            DiagSession::Passive => 0x90,
            DiagSession::Extended => 0x92,
        }
    }
}

} // verus!
