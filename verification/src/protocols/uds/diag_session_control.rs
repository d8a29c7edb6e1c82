//! Diagnostic Session Control ($10): enables a kind of diagnostic session in an ECU; a
//! service can only run in the sessions that support it.

use vstd::prelude::*;

verus! {

/// A UDS diagnostic session.
#[derive(Debug, Copy, Clone, PartialEq, Eq, Structural)]
pub enum DiagSession {
    Default,
    Programming,
    Extended,
    SafetySystem,
    VehicleSpecific(u8),
    SystemSupplier(u8),
}

/// The byte that requests a session.
pub open spec fn diag_session_byte(s: DiagSession) -> u8 {
    match s {
        DiagSession::Default => 0x01,
        DiagSession::Programming => 0x02,
        DiagSession::Extended => 0x03,
        DiagSession::SafetySystem => 0x04,
        DiagSession::VehicleSpecific(x) => x,
        DiagSession::SystemSupplier(x) => x,
    }
}

impl DiagSession {
    /// The byte that requests the session.
    pub fn to_byte(&self) -> (r: u8)
        ensures
            r == diag_session_byte(*self),
    {
        match self {
            DiagSession::Default => 0x01,
            DiagSession::Programming => 0x02,
            DiagSession::Extended => 0x03,
            DiagSession::SafetySystem => 0x04,
            DiagSession::VehicleSpecific(x) => *x,
            DiagSession::SystemSupplier(x) => *x,
        }
    }

    /// Every session but the default one must be kept alive with tester-present messages.
    pub fn send_tester_present(&self) -> (r: bool)
        ensures
            r == (*self != DiagSession::Default),
    {
        *self != DiagSession::Default
    }
}

/// The session an ECU is in after a request to switch to `mode`: the requested mode when
/// the request succeeded, the default session when it failed.
pub fn session_after_switch(mode: DiagSession, succeeded: bool) -> (r: DiagSession)
    ensures
        r == (if succeeded { mode } else { DiagSession::Default }),
{
    if succeeded { mode } else { DiagSession::Default }
}

} // verus!
