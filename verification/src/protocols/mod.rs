//! Diagnostic protocols spoken with an ECU, their errors and trouble codes.

use vstd::prelude::*;
use vstd::string::*;
use crate::comm_api::{ComServerError, com_server_error_text};
use crate::text::{push_str, push_decimal, decimal};
use crate::bytes::copy_all;
use crate::protocols::kwp2000::{NegativeResponse, kwp_negative_from_byte, kwp_negative_desc};
use crate::protocols::uds::{UDSNegativeCode, uds_negative_from_byte, uds_negative_desc};
use crate::protocols::obd2::ObdError;

pub mod kwp2000;
pub mod obd2;
pub mod uds;
pub mod vin;

verus! {

/// The negative response of an ECU, in the protocol it was received in.
#[derive(Debug, Clone, Copy, PartialEq, Eq, Structural)]
pub enum ECUError {
    KWP2000(NegativeResponse),
    UDS(UDSNegativeCode),
    OBD(ObdError),
}

/// The description of a negative response.
pub open spec fn ecu_error_desc(e: ECUError) -> Seq<char> {
    match e {
        ECUError::KWP2000(n) => kwp_negative_desc(n),
        ECUError::UDS(n) => uds_negative_desc(n),
        ECUError::OBD(_) => "OBD Command not supported by ECU"@,
    }
}

impl ECUError {
    /// The description of the negative response.
    pub fn get_desc(&self) -> (r: String)
        ensures
            r@ == ecu_error_desc(*self),
    {
        match self {
            ECUError::KWP2000(n) => n.get_desc(),
            ECUError::UDS(n) => n.get_desc(),
            ECUError::OBD(n) => n.get_desc(),
        }
    }
}

/// An error while running a diagnostic command.
#[derive(Debug, Clone)]
pub enum ProtocolError {
    CommError(ComServerError),
    ProtocolError(ECUError),
    CustomError(String),
    InvalidResponseSize { expect: usize, actual: usize },
    Timeout,
}

pub type ProtocolResult<T> = Result<T, ProtocolError>;

/// The text of a protocol error.
pub open spec fn protocol_error_text(e: ProtocolError) -> Seq<char> {
    match e {
        ProtocolError::CommError(c) => com_server_error_text(c.err_code, c.err_desc@),
        ProtocolError::ProtocolError(n) => ecu_error_desc(n),
        ProtocolError::Timeout => "Communication timeout"@,
        ProtocolError::CustomError(s) => s@,
        ProtocolError::InvalidResponseSize { expect, actual } =>
            "Expected "@ + decimal(expect as nat) + " bytes, got "@ + decimal(actual as nat) + " bytes"@,
    }
}

impl ProtocolError {
    /// Whether the error is a timeout.
    pub fn is_timeout(&self) -> (r: bool)
        ensures
            r == (*self is Timeout),
    {
        match self {
            ProtocolError::CommError(_) => false,
            ProtocolError::ProtocolError(_) => false,
            ProtocolError::CustomError(_) => false,
            ProtocolError::InvalidResponseSize { .. } => false,
            ProtocolError::Timeout => true,
        }
    }

    /// A human readable description of the error.
    pub fn get_text(&self) -> (r: String)
        ensures
            r@ == protocol_error_text(*self),
    {
        match self {
            ProtocolError::CommError(e) => e.to_string(),
            ProtocolError::ProtocolError(e) => e.get_desc(),
            ProtocolError::Timeout => String::from_str("Communication timeout"),
            ProtocolError::CustomError(s) => s.clone(),
            ProtocolError::InvalidResponseSize { expect, actual } => {
                let mut s = String::new();
                proof { reveal_strlit("Expected "); reveal_strlit(" bytes, got "); reveal_strlit(" bytes"); }
                push_str(&mut s, "Expected ");
                push_decimal(&mut s, *expect as u64);
                push_str(&mut s, " bytes, got ");
                push_decimal(&mut s, *actual as u64);
                push_str(&mut s, " bytes");
                s
            },
        }
    }

    /// The protocol error that an adapter error becomes.
    pub fn from_com_error(x: ComServerError) -> (r: Self)
        ensures
            r == ProtocolError::CommError(x),
    {
        ProtocolError::CommError(x)
    }
}

/// A command or option that a user can pick from a list.
pub trait Selectable {
    fn get_desc(&self) -> String;
    fn get_name(&self) -> String;
}

/// How risky running a command on an ECU is.
#[derive(Debug, Copy, Clone, PartialEq, Eq, Structural, PartialOrd, Ord)]
pub enum CautionLevel {
    /// This has no adverse effects on the ECU
    Harmless,
    /// This might cause unpredictable behavior
    Warn,
    /// Danger Zone - Do not run this unless you know what you are doing!
    Alert,
}

impl CautionLevel {
    /// The numeric level: 0 for none, 1 for warn, 2 for alert.
    pub fn value(&self) -> (r: u8)
        ensures
            r == match *self { CautionLevel::Harmless => 0u8, CautionLevel::Warn => 1u8, CautionLevel::Alert => 2u8 },
    {
        match self {
            CautionLevel::Harmless => 0,
            CautionLevel::Warn => 1,
            CautionLevel::Alert => 2,
        }
    }
}

/// A command of a diagnostic protocol.
pub trait ECUCommand: Selectable + Sized {
    fn get_caution_level(&self) -> CautionLevel;
    fn get_cmd_list() -> Vec<Self>;
}

/// A negative response code of a diagnostic protocol.
pub trait CommandError: Sized {
    fn get_desc(&self) -> String;
    fn get_help(&self) -> Option<String>;
    fn from_byte(b: u8) -> Self;
}

/// How a trouble code is held by the ECU.
#[derive(Debug, Copy, Clone, PartialEq, Eq, Structural, PartialOrd, Ord)]
pub enum DTCState {
    Unset,
    Stored,
    Pending,
    Permanent,
}

/// The name of a trouble code state.
pub open spec fn dtc_state_name(s: DTCState) -> Seq<char> {
    match s {
        DTCState::Unset => "None"@,
        DTCState::Stored => "Stored"@,
        DTCState::Pending => "Pending"@,
        DTCState::Permanent => "Permanent"@,
    }
}

/// A diagnostic trouble code read from an ECU.
#[derive(Debug, Clone)]
pub struct DTC {
    pub error: String,
    pub state: DTCState,
    pub check_engine_on: bool,
    pub id: u32,
}

/// The text of a boolean.
pub open spec fn bool_text(b: bool) -> Seq<char> {
    if b { "true"@ } else { "false"@ }
}

impl DTC {
    /// Renders the code as `{error} - State: {state}, Check engine light on?: {bool}`.
    pub fn to_string(&self) -> (r: String)
        ensures
            r@ == self.error@ + " - State: "@ + dtc_state_name(self.state)
                + ", Check engine light on?: "@ + bool_text(self.check_engine_on),
    {
        let mut s = String::new();
        push_str(&mut s, self.error.as_str());
        push_str(&mut s, " - State: ");
        let st: &str = match self.state {
            DTCState::Unset => "None",
            DTCState::Stored => "Stored",
            DTCState::Pending => "Pending",
            DTCState::Permanent => "Permanent",
        };
        push_str(&mut s, st);
        push_str(&mut s, ", Check engine light on?: ");
        push_str(&mut s, if self.check_engine_on { "true" } else { "false" });
        s
    }
}

/// The protocols a diagnostic session can run.
#[derive(Debug, Copy, Clone, PartialEq, Eq, Structural)]
pub enum DiagProtocol {
    KWP2000,
    UDS,
}

impl DiagProtocol {
    /// The name under which a session of this protocol is shown.
    pub fn get_name(&self) -> (r: &'static str)
        ensures
            r@ == (match *self { DiagProtocol::KWP2000 => "KWP2000"@, DiagProtocol::UDS => "UDS"@ }),
    {
        match self {
            DiagProtocol::KWP2000 => "KWP2000",
            DiagProtocol::UDS => "UDS",
        }
    }
}

/// The negative response that a code byte stands for in a protocol.
pub open spec fn negative_code(proto: DiagProtocol, b: u8) -> ECUError {
    match proto {
        DiagProtocol::KWP2000 => ECUError::KWP2000(kwp_negative_from_byte(b)),
        DiagProtocol::UDS => ECUError::UDS(uds_negative_from_byte(b)),
    }
}

/// Decodes a negative response code byte of a protocol.
pub fn negative_code_of(proto: DiagProtocol, b: u8) -> (r: ECUError)
    ensures
        r == negative_code(proto, b),
{
    match proto {
        DiagProtocol::KWP2000 => ECUError::KWP2000(<NegativeResponse as CommandError>::from_byte(b)),
        DiagProtocol::UDS => ECUError::UDS(<UDSNegativeCode as CommandError>::from_byte(b)),
    }
}

/// An ECU reply that can be examined: it has a first byte, and a negative reply
/// (first byte 0x7F) also has its code in the third byte.
pub open spec fn reply_readable(resp: Seq<u8>) -> bool {
    resp.len() >= 1 && (resp[0] == 0x7F ==> resp.len() >= 3)
}

/// The ECU accepted the request and is still working on it (negative reply with code 0x78).
pub open spec fn reply_pending(resp: Seq<u8>) -> bool {
    resp[0] == 0x7F && resp[2] == 0x78
}

/// Whether a reply says that the answer is still being prepared, so the tester must wait
/// for another reply.
pub fn is_response_pending(resp: &[u8]) -> (r: bool)
    requires
        reply_readable(resp@),
    ensures
        r == reply_pending(resp@),
{
    resp[0] == 0x7F && resp[2] == 0x78
}

/// The outcome of a request `cmd` over ISO-TP given the final reply: a negative reply is
/// the protocol's error for its code; a positive reply (first byte `cmd + 0x40`) is
/// returned whole; any other first byte counts as no answer.
pub open spec fn iso_tp_outcome(proto: DiagProtocol, cmd: u8, resp: Seq<u8>) -> Result<Seq<u8>, ProtocolError> {
    if resp[0] == 0x7F {
        Err(ProtocolError::ProtocolError(negative_code(proto, resp[2])))
    } else if resp[0] == cmd + 0x40 {
        Ok(resp)
    } else {
        Err(ProtocolError::Timeout)
    }
}

/// Interprets the final reply of an ISO-TP request `cmd`.
pub fn interpret_iso_tp_reply(proto: DiagProtocol, cmd: u8, resp: Vec<u8>) -> (r: ProtocolResult<Vec<u8>>)
    requires
        reply_readable(resp@),
        cmd + 0x40 <= 0xFF,
    ensures
        match (r, iso_tp_outcome(proto, cmd, resp@)) {
            (Ok(v), Ok(w)) => v@ == w,
            (Err(e), Err(f)) => e == f,
            _ => false,
        },
{
    if resp[0] == 0x7F {
        Err(ProtocolError::ProtocolError(negative_code_of(proto, resp[2])))
    } else if resp[0] == cmd + 0x40 {
        Ok(resp)
    } else {
        Err(ProtocolError::Timeout)
    }
}

/// Checks a reply relayed by a diagnostic session: a negative reply (first byte 0x7F)
/// becomes the protocol's error for the code in its third byte; any other reply is
/// returned unchanged.
pub fn check_session_reply(proto: DiagProtocol, resp: Vec<u8>) -> (r: ProtocolResult<Vec<u8>>)
    requires
        reply_readable(resp@),
    ensures
        resp@[0] == 0x7F ==> r == Err::<Vec<u8>, ProtocolError>(ProtocolError::ProtocolError(negative_code(proto, resp@[2]))),
        resp@[0] != 0x7F ==> r == Ok::<Vec<u8>, ProtocolError>(resp),
{
    if resp[0] == 0x7F {
        Err(ProtocolError::ProtocolError(negative_code_of(proto, resp[2])))
    } else {
        Ok(resp)
    }
}

/// The time, in milliseconds, after which a session that must be kept alive gets another
/// tester-present message.
pub const TESTER_PRESENT_INTERVAL_MS: u128 = 2000;

/// What a diagnostic server does on one round of its loop.
#[derive(Debug, Clone, Copy, PartialEq, Eq, Structural)]
pub struct ServerTick {
    /// Run the command that a caller queued, and hand back its reply.
    pub run_command: bool,
    /// Send a tester-present message and restart the keep-alive timer.
    pub send_tester_present: bool,
}

/// One round of a diagnostic server's loop: a queued command is run; a tester-present
/// message is sent when the session must be kept alive and the last one went out at
/// least two seconds ago.
pub fn server_tick(command_queued: bool, ms_since_tester_present: u128, keep_alive: bool) -> (r: ServerTick)
    ensures
        r.run_command == command_queued,
        r.send_tester_present == (keep_alive && ms_since_tester_present >= TESTER_PRESENT_INTERVAL_MS),
{
    ServerTick {
        run_command: command_queued,
        send_tester_present: ms_since_tester_present >= TESTER_PRESENT_INTERVAL_MS && keep_alive,
    }
}

/// The request bytes of a command: the service byte followed by its arguments.
pub fn command_bytes(cmd: u8, args: &[u8]) -> (r: Vec<u8>)
    ensures
        r@ == seq![cmd] + args@,
{
    let mut r: Vec<u8> = Vec::new();
    r.push(cmd);
    let mut rest = copy_all(args);
    r.append(&mut rest);
    r
}

} // verus!
