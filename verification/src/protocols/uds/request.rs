//! Single UDS requests over ISO-TP: the request, the decoding of the ECU's reply, and
//! the decisions taken while waiting for it.

use vstd::prelude::*;
use crate::comm_api::{ComServerError, ISO15765Config, ISO15765Data};
use crate::bytes::copy_range;

verus! {

/// A UDS service, as decoded from a request or reply byte.
#[derive(Copy, Clone, Debug, PartialEq, Eq, Structural, PartialOrd)]
pub enum UDSCommand {
    DiagnosticSessionControl,
    ECUReset,
    ClearDTCInformation,
    ReadDTCInformation,
    ReadDataByID,
    ReadMemoryByAddress,
    ReadScalingDataById,
    SecurityAccess,
    CommunicationControl,
    Authentication,
    ReadDataByPeriodicID,
    WriteDataByID,
    IOCTLById,
    RoutineControl,
    RequestDownload,
    RequestUpload,
    TransferData,
    TransferExit,
    WriteMemoryByAddress,
    TesterPresent,
    ControlDTCSetting,
}

/// The request byte of a service.
pub open spec fn request_byte(c: UDSCommand) -> u8 {
    match c {
        UDSCommand::DiagnosticSessionControl => 0x10,
        UDSCommand::ECUReset => 0x11,
        UDSCommand::ClearDTCInformation => 0x14,
        UDSCommand::ReadDTCInformation => 0x19,
        UDSCommand::ReadDataByID => 0x22,
        UDSCommand::ReadMemoryByAddress => 0x23,
        UDSCommand::ReadScalingDataById => 0x24,
        UDSCommand::SecurityAccess => 0x27,
        UDSCommand::CommunicationControl => 0x28,
        UDSCommand::Authentication => 0x29,
        UDSCommand::ReadDataByPeriodicID => 0x2A,
        UDSCommand::WriteDataByID => 0x2E,
        UDSCommand::IOCTLById => 0x2F,
        UDSCommand::RoutineControl => 0x31,
        UDSCommand::RequestDownload => 0x34,
        UDSCommand::RequestUpload => 0x35,
        UDSCommand::TransferData => 0x36,
        UDSCommand::TransferExit => 0x37,
        UDSCommand::WriteMemoryByAddress => 0x3D,
        UDSCommand::TesterPresent => 0x3E,
        UDSCommand::ControlDTCSetting => 0x85,
    }
}

/// The service that a request byte or its reply byte (request byte + 0x40) names.
pub open spec fn command_from_byte(b: u8) -> Option<UDSCommand> {
    if b == 0x10 || b == 0x50 { Some(UDSCommand::DiagnosticSessionControl) }
    else if b == 0x11 || b == 0x51 { Some(UDSCommand::ECUReset) }
    else if b == 0x14 || b == 0x54 { Some(UDSCommand::ClearDTCInformation) }
    else if b == 0x19 || b == 0x59 { Some(UDSCommand::ReadDTCInformation) }
    else if b == 0x22 || b == 0x62 { Some(UDSCommand::ReadDataByID) }
    else if b == 0x23 || b == 0x63 { Some(UDSCommand::ReadMemoryByAddress) }
    else if b == 0x24 || b == 0x64 { Some(UDSCommand::ReadScalingDataById) }
    else if b == 0x27 || b == 0x67 { Some(UDSCommand::SecurityAccess) }
    else if b == 0x28 || b == 0x68 { Some(UDSCommand::CommunicationControl) }
    else if b == 0x29 || b == 0x69 { Some(UDSCommand::Authentication) }
    else if b == 0x2A || b == 0x6A { Some(UDSCommand::ReadDataByPeriodicID) }
    else if b == 0x2E || b == 0x6E { Some(UDSCommand::WriteDataByID) }
    else if b == 0x2F || b == 0x6F { Some(UDSCommand::IOCTLById) }
    else if b == 0x31 || b == 0x71 { Some(UDSCommand::RoutineControl) }
    else if b == 0x34 || b == 0x74 { Some(UDSCommand::RequestDownload) }
    else if b == 0x35 || b == 0x75 { Some(UDSCommand::RequestUpload) }
    else if b == 0x36 || b == 0x76 { Some(UDSCommand::TransferData) }
    else if b == 0x37 || b == 0x77 { Some(UDSCommand::TransferExit) }
    else if b == 0x3D || b == 0x7D { Some(UDSCommand::WriteMemoryByAddress) }
    else if b == 0x3E || b == 0x7E { Some(UDSCommand::TesterPresent) }
    else if b == 0x85 || b == 0xC5 { Some(UDSCommand::ControlDTCSetting) }
    else { None }
}

/// A service is named both by its request byte and by the first byte of its positive
/// reply, which is the request byte plus 0x40.
pub proof fn lemma_request_and_reply_byte(c: UDSCommand)
    ensures
        request_byte(c) + 0x40 <= 0xFF,
        command_from_byte(request_byte(c)) == Some(c),
        command_from_byte((request_byte(c) + 0x40) as u8) == Some(c),
{
}

/// An error while processing a reply from an ECU.
#[derive(Clone, Debug)]
pub enum UDSProcessError {
    /// ECU Responded with an ID that isn't known in the UDS protocol
    InvalidCommand,
    /// ECU Responded with an Error that isn't known
    InvalidErrorCode,
    /// ECU Response size was invalid
    InvalidDataLen,
    /// ECU did not respond
    NoResponse,
    /// Driver error whilst trying to communicate with the ECU
    CommError(ComServerError),
}

impl UDSProcessError {
    /// The processing error that an adapter error becomes.
    pub fn from_com_error(t: ComServerError) -> (r: Self)
        ensures
            r == UDSProcessError::CommError(t),
    {
        UDSProcessError::CommError(t)
    }
}

impl UDSCommand {
    /// Decodes a request byte, or the reply byte of a positive response (request byte
    /// with bit 6 set); any other byte is an invalid command.
    pub fn from_byte(resp: &u8) -> (r: Result<Self, UDSProcessError>)
        ensures
            match command_from_byte(*resp) {
                Some(c) => r matches Ok(d) && d == c,
                None => r matches Err(UDSProcessError::InvalidCommand),
            },
    {
        match *resp {
            0x10 | 0x50 => Ok(Self::DiagnosticSessionControl),
            0x11 | 0x51 => Ok(Self::ECUReset),
            0x14 | 0x54 => Ok(Self::ClearDTCInformation),
            0x19 | 0x59 => Ok(Self::ReadDTCInformation),
            0x22 | 0x62 => Ok(Self::ReadDataByID),
            0x23 | 0x63 => Ok(Self::ReadMemoryByAddress),
            0x24 | 0x64 => Ok(Self::ReadScalingDataById),
            0x27 | 0x67 => Ok(Self::SecurityAccess),
            0x28 | 0x68 => Ok(Self::CommunicationControl),
            0x29 | 0x69 => Ok(Self::Authentication),
            0x2A | 0x6A => Ok(Self::ReadDataByPeriodicID),
            0x2E | 0x6E => Ok(Self::WriteDataByID),
            0x2F | 0x6F => Ok(Self::IOCTLById),
            0x31 | 0x71 => Ok(Self::RoutineControl),
            0x34 | 0x74 => Ok(Self::RequestDownload),
            0x35 | 0x75 => Ok(Self::RequestUpload),
            0x36 | 0x76 => Ok(Self::TransferData),
            0x37 | 0x77 => Ok(Self::TransferExit),
            0x3D | 0x7D => Ok(Self::WriteMemoryByAddress),
            0x3E | 0x7E => Ok(Self::TesterPresent),
            0x85 | 0xC5 => Ok(Self::ControlDTCSetting),
            _ => Err(UDSProcessError::InvalidCommand),
        }
    }

    /// The request byte of the service.
    pub fn to_byte(&self) -> (r: u8)
        ensures
            r == request_byte(*self),
    {
        match self {
            UDSCommand::DiagnosticSessionControl => 0x10,
            UDSCommand::ECUReset => 0x11,
            UDSCommand::ClearDTCInformation => 0x14,
            UDSCommand::ReadDTCInformation => 0x19,
            UDSCommand::ReadDataByID => 0x22,
            UDSCommand::ReadMemoryByAddress => 0x23,
            UDSCommand::ReadScalingDataById => 0x24,
            UDSCommand::SecurityAccess => 0x27,
            UDSCommand::CommunicationControl => 0x28,
            UDSCommand::Authentication => 0x29,
            UDSCommand::ReadDataByPeriodicID => 0x2A,
            UDSCommand::WriteDataByID => 0x2E,
            UDSCommand::IOCTLById => 0x2F,
            UDSCommand::RoutineControl => 0x31,
            UDSCommand::RequestDownload => 0x34,
            UDSCommand::RequestUpload => 0x35,
            UDSCommand::TransferData => 0x36,
            UDSCommand::TransferExit => 0x37,
            UDSCommand::WriteMemoryByAddress => 0x3D,
            UDSCommand::TesterPresent => 0x3E,
            UDSCommand::ControlDTCSetting => 0x85,
        }
    }
}

/// A UDS negative response code.
#[derive(Copy, Debug, Clone, PartialEq, Eq, Structural, PartialOrd)]
pub enum UDSNegativeCode {
    ISOReserved,
    GeneralReject,
    ServiceNotSupported,
    SubFunctionNotSupported,
    IncorrectMessageLength,
    ResponseTooLong,
    BusyRepeatRequest,
    ConditionsNotCorrect,
    RequestSequenceError,
    RequestOutOfRange,
    SecurityAccessDenied,
    InvalidKey,
    ExceedNumberOfAttempts,
    RequiredTimeDelayNotExpired,
    ExtendedDataLinkSecurity,
    UploadDownloadNotAccepted,
    TransferDataSuspended,
    GeneralProgrammingFailure,
    WrongBlockSequenceCounter,
    ResponsePending,
    SubFunctionNotSupportedActiveSession,
    ServiceNotSupportedActiveSession,
    RpmTooHigh,
    RpmTooLow,
    EngineIsRunning,
    EngineIsNotRunning,
    EngineRunTimeTooLow,
    TempTooHigh,
    TempTooLow,
    SpeedTooHigh,
    SpeedTooLow,
    ThrottleTooHigh,
    ThrottleTooLow,
    TransmissionNotInNeutral,
    TransmissionNotInGear,
    BrakeNotApplied,
    ShifterNotInPark,
    TorqueConverterClutchLocked,
    VoltageTooHigh,
    VoltageTooLow,
    ReservedSpecificConditionsIncorrect,
}

/// The negative response that a code byte stands for; 0x00 stands for none.
pub open spec fn negative_from_byte(b: u8) -> Option<UDSNegativeCode> {
    if 0x01 <= b <= 0x0F { Some(UDSNegativeCode::ISOReserved) }
    else if b == 0x10 { Some(UDSNegativeCode::GeneralReject) }
    else if b == 0x11 { Some(UDSNegativeCode::ServiceNotSupported) }
    else if b == 0x12 { Some(UDSNegativeCode::SubFunctionNotSupported) }
    else if b == 0x13 { Some(UDSNegativeCode::IncorrectMessageLength) }
    else if b == 0x14 { Some(UDSNegativeCode::ResponseTooLong) }
    else if 0x15 <= b <= 0x20 { Some(UDSNegativeCode::ISOReserved) }
    else if b == 0x21 { Some(UDSNegativeCode::BusyRepeatRequest) }
    else if b == 0x22 { Some(UDSNegativeCode::ConditionsNotCorrect) }
    else if b == 0x23 { Some(UDSNegativeCode::ISOReserved) }
    else if b == 0x24 { Some(UDSNegativeCode::RequestSequenceError) }
    else if 0x25 <= b <= 0x30 { Some(UDSNegativeCode::ISOReserved) }
    else if b == 0x31 { Some(UDSNegativeCode::RequestOutOfRange) }
    else if b == 0x32 { Some(UDSNegativeCode::ISOReserved) }
    else if b == 0x33 { Some(UDSNegativeCode::SecurityAccessDenied) }
    else if b == 0x34 { Some(UDSNegativeCode::ISOReserved) }
    else if b == 0x35 { Some(UDSNegativeCode::InvalidKey) }
    else if b == 0x36 { Some(UDSNegativeCode::ExceedNumberOfAttempts) }
    else if b == 0x37 { Some(UDSNegativeCode::RequiredTimeDelayNotExpired) }
    else if 0x38 <= b <= 0x4F { Some(UDSNegativeCode::ExtendedDataLinkSecurity) }
    else if 0x50 <= b <= 0x6F { Some(UDSNegativeCode::ISOReserved) }
    else if b == 0x70 { Some(UDSNegativeCode::UploadDownloadNotAccepted) }
    else if b == 0x71 { Some(UDSNegativeCode::TransferDataSuspended) }
    else if b == 0x72 { Some(UDSNegativeCode::GeneralProgrammingFailure) }
    else if b == 0x73 { Some(UDSNegativeCode::WrongBlockSequenceCounter) }
    else if 0x74 <= b <= 0x77 { Some(UDSNegativeCode::ISOReserved) }
    else if b == 0x78 { Some(UDSNegativeCode::ResponsePending) }
    else if 0x79 <= b <= 0x7D { Some(UDSNegativeCode::ISOReserved) }
    else if b == 0x7E { Some(UDSNegativeCode::SubFunctionNotSupportedActiveSession) }
    else if b == 0x7F { Some(UDSNegativeCode::ServiceNotSupportedActiveSession) }
    else if b == 0x80 { Some(UDSNegativeCode::ISOReserved) }
    else if b == 0x81 { Some(UDSNegativeCode::RpmTooHigh) }
    else if b == 0x82 { Some(UDSNegativeCode::RpmTooLow) }
    else if b == 0x83 { Some(UDSNegativeCode::EngineIsRunning) }
    else if b == 0x84 { Some(UDSNegativeCode::EngineIsNotRunning) }
    else if b == 0x85 { Some(UDSNegativeCode::EngineRunTimeTooLow) }
    else if b == 0x86 { Some(UDSNegativeCode::TempTooHigh) }
    else if b == 0x87 { Some(UDSNegativeCode::TempTooLow) }
    else if b == 0x88 { Some(UDSNegativeCode::SpeedTooHigh) }
    else if b == 0x89 { Some(UDSNegativeCode::SpeedTooLow) }
    else if b == 0x8A { Some(UDSNegativeCode::ThrottleTooHigh) }
    else if b == 0x8B { Some(UDSNegativeCode::ThrottleTooLow) }
    else if b == 0x8C { Some(UDSNegativeCode::TransmissionNotInNeutral) }
    else if b == 0x8D { Some(UDSNegativeCode::TransmissionNotInGear) }
    else if b == 0x8E { Some(UDSNegativeCode::ISOReserved) }
    else if b == 0x8F { Some(UDSNegativeCode::BrakeNotApplied) }
    else if b == 0x90 { Some(UDSNegativeCode::ShifterNotInPark) }
    else if b == 0x91 { Some(UDSNegativeCode::TorqueConverterClutchLocked) }
    else if b == 0x92 { Some(UDSNegativeCode::VoltageTooHigh) }
    else if b == 0x93 { Some(UDSNegativeCode::VoltageTooLow) }
    else if 0x94 <= b <= 0xFE { Some(UDSNegativeCode::ReservedSpecificConditionsIncorrect) }
    else if b == 0xFF { Some(UDSNegativeCode::ISOReserved) }
    else { None }
}

impl UDSNegativeCode {
    /// Decodes a negative response code byte; only 0x00 is an invalid error code.
    pub fn from_byte(byte: &u8) -> (r: Result<Self, UDSProcessError>)
        ensures
            match negative_from_byte(*byte) {
                Some(c) => r matches Ok(d) && d == c,
                None => r matches Err(UDSProcessError::InvalidErrorCode),
            },
    {
        match *byte {
            0x01..=0x0F => Ok(Self::ISOReserved),
            0x10 => Ok(Self::GeneralReject),
            0x11 => Ok(Self::ServiceNotSupported),
            0x12 => Ok(Self::SubFunctionNotSupported),
            0x13 => Ok(Self::IncorrectMessageLength),
            0x14 => Ok(Self::ResponseTooLong),
            0x15..=0x20 => Ok(Self::ISOReserved),
            0x21 => Ok(Self::BusyRepeatRequest),
            0x22 => Ok(Self::ConditionsNotCorrect),
            0x23 => Ok(Self::ISOReserved),
            0x24 => Ok(Self::RequestSequenceError),
            0x25..=0x30 => Ok(Self::ISOReserved),
            0x31 => Ok(Self::RequestOutOfRange),
            0x32 => Ok(Self::ISOReserved),
            0x33 => Ok(Self::SecurityAccessDenied),
            0x34 => Ok(Self::ISOReserved),
            0x35 => Ok(Self::InvalidKey),
            0x36 => Ok(Self::ExceedNumberOfAttempts),
            0x37 => Ok(Self::RequiredTimeDelayNotExpired),
            0x38..=0x4F => Ok(Self::ExtendedDataLinkSecurity),
            0x50..=0x6F => Ok(Self::ISOReserved),
            0x70 => Ok(Self::UploadDownloadNotAccepted),
            0x71 => Ok(Self::TransferDataSuspended),
            0x72 => Ok(Self::GeneralProgrammingFailure),
            0x73 => Ok(Self::WrongBlockSequenceCounter),
            0x74..=0x77 => Ok(Self::ISOReserved),
            0x78 => Ok(Self::ResponsePending),
            0x79..=0x7D => Ok(Self::ISOReserved),
            0x7E => Ok(Self::SubFunctionNotSupportedActiveSession),
            0x7F => Ok(Self::ServiceNotSupportedActiveSession),
            0x80 => Ok(Self::ISOReserved),
            0x81 => Ok(Self::RpmTooHigh),
            0x82 => Ok(Self::RpmTooLow),
            0x83 => Ok(Self::EngineIsRunning),
            0x84 => Ok(Self::EngineIsNotRunning),
            0x85 => Ok(Self::EngineRunTimeTooLow),
            0x86 => Ok(Self::TempTooHigh),
            0x87 => Ok(Self::TempTooLow),
            0x88 => Ok(Self::SpeedTooHigh),
            0x89 => Ok(Self::SpeedTooLow),
            0x8A => Ok(Self::ThrottleTooHigh),
            0x8B => Ok(Self::ThrottleTooLow),
            0x8C => Ok(Self::TransmissionNotInNeutral),
            0x8D => Ok(Self::TransmissionNotInGear),
            0x8E => Ok(Self::ISOReserved),
            0x8F => Ok(Self::BrakeNotApplied),
            0x90 => Ok(Self::ShifterNotInPark),
            0x91 => Ok(Self::TorqueConverterClutchLocked),
            0x92 => Ok(Self::VoltageTooHigh),
            0x93 => Ok(Self::VoltageTooLow),
            0x94..=0xFE => Ok(Self::ReservedSpecificConditionsIncorrect),
            0xFF => Ok(Self::ISOReserved),
            _ => Err(UDSProcessError::InvalidErrorCode),
        }
    }
}
/// The decoded reply of an ECU.
#[derive(Clone, Debug)]
pub enum UDSResponse {
    /// Positive response - Command was executed successfully.
    /// Args returned by the ECU are provided
    PositiveResponse(UDSCommand, Vec<u8>),
    /// Negative response - ECU Failed to process the request
    /// Error code is provided
    NegativeResponse(UDSCommand, UDSNegativeCode),
}

/// The decoding of a reply: empty replies are invalid; a reply starting with 0x7F is
/// negative and must be three bytes (0x7F, service, code); any other reply is positive,
/// its first byte naming the service and the rest being its arguments.
pub open spec fn response_decoded(args: Seq<u8>, r: Result<UDSResponse, UDSProcessError>) -> bool {
    if args.len() == 0 {
        r matches Err(UDSProcessError::InvalidDataLen)
    } else if args[0] == 0x7F {
        if args.len() != 3 {
            r matches Err(UDSProcessError::InvalidDataLen)
        } else {
            match (command_from_byte(args[1]), negative_from_byte(args[2])) {
                (None, _) => r matches Err(UDSProcessError::InvalidCommand),
                (Some(c), None) => r matches Err(UDSProcessError::InvalidErrorCode),
                (Some(c), Some(n)) => r matches Ok(UDSResponse::NegativeResponse(c2, n2)) && c2 == c && n2 == n,
            }
        }
    } else {
        match command_from_byte(args[0]) {
            None => r matches Err(UDSProcessError::InvalidCommand),
            Some(c) => r matches Ok(UDSResponse::PositiveResponse(c2, v)) && c2 == c
                && v@ == args.subrange(1, args.len() as int),
        }
    }
}

impl UDSResponse {
    /// Decodes a reply from an ECU.
    pub fn from_data(args: &[u8]) -> (r: Result<Self, UDSProcessError>)
        ensures
            response_decoded(args@, r),
    {
        if args.len() == 0x00 {
            return Err(UDSProcessError::InvalidDataLen);
        }
        if args[0] == 0x7F {
            if args.len() == 3 {
                let cmd = match UDSCommand::from_byte(&args[1]) {
                    Ok(c) => c,
                    Err(e) => return Err(e),
                };
                let err = match UDSNegativeCode::from_byte(&args[2]) {
                    Ok(n) => n,
                    Err(e) => return Err(e),
                };
                Ok(UDSResponse::NegativeResponse(cmd, err))
            } else {
                Err(UDSProcessError::InvalidDataLen)
            }
        } else {
            let cmd = match UDSCommand::from_byte(&args[0]) {
                Ok(c) => c,
                Err(e) => return Err(e),
            };
            let rest = copy_range(args, 1, args.len());
            Ok(UDSResponse::PositiveResponse(cmd, rest))
        }
    }
}

/// A UDS request sent to an ECU over ISO-TP.
pub struct UDSRequest {
    /// The command to execute on the ECU
    cmd: UDSCommand,
    /// The args provided to the ECU for the command
    args: Vec<u8>,
}

impl UDSRequest {
    /// The command of the request.
    pub closed spec fn command(&self) -> UDSCommand {
        self.cmd
    }

    /// The arguments of the request.
    pub closed spec fn arguments(&self) -> Seq<u8> {
        self.args@
    }

    /// A request of a command with its arguments.
    pub fn new(command: UDSCommand, args: &[u8]) -> (r: Self)
        ensures
            r.command() == command,
            r.arguments() == args@,
    {
        Self { cmd: command, args: crate::bytes::copy_all(args) }
    }

    /// The ISO-TP message that carries the request: addressed to the configured send
    /// identifier, unpadded, its first byte the command's request byte, followed by the
    /// arguments.
    pub fn to_payload(&self, tp_config: &ISO15765Config) -> (r: ISO15765Data)
        ensures
            r.id == tp_config.send_id,
            !r.pad_frame,
            !r.ext_addressing,
            r.data@ == seq![request_byte(self.command())] + self.arguments(),
    {
        let mut packet: Vec<u8> = Vec::new();
        packet.push(self.cmd.to_byte());
        let mut rest = crate::bytes::clone_bytes(&self.args);
        packet.append(&mut rest);
        ISO15765Data { id: tp_config.send_id, data: packet, pad_frame: false, ext_addressing: false }
    }
}

/// A reply saying that the ECU accepted the request and needs more time: a three-byte
/// negative reply of a known service with code ResponsePending (0x78).
pub open spec fn pending_reply(data: Seq<u8>) -> bool {
    data.len() == 3 && data[0] == 0x7F && command_from_byte(data[1]) is Some && data[2] == 0x78
}

/// What a received message means while waiting for the reply to a request: a message
/// without data is skipped (`Ok(None)`, not pending); a pending reply means the ECU needs
/// more time (`Ok(None)`, pending); any other message is the decoded reply, and a message
/// that cannot be decoded ends the wait with its error.
pub fn classify_reply(data: &[u8]) -> (r: (Result<Option<UDSResponse>, UDSProcessError>, bool))
    ensures
        r.1 == pending_reply(data@),
        (data@.len() == 0 || r.1) ==> (r.0 matches Ok(None)),
        (data@.len() > 0 && !r.1) ==> match r.0 {
            Ok(Some(x)) => response_decoded(data@, Ok(x)),
            Err(e) => response_decoded(data@, Err(e)),
            Ok(None) => false,
        },
{
    if data.len() == 0 {
        return (Ok(None), false);
    }
    let d = UDSResponse::from_data(data);
    match d {
        Err(e) => (Err(e), false),
        Ok(resp) => {
            let pending = match &resp {
                UDSResponse::NegativeResponse(_, x) => *x == UDSNegativeCode::ResponsePending,
                UDSResponse::PositiveResponse(_, _) => false,
            };
            if pending { (Ok(None), true) } else { (Ok(Some(resp)), false) }
        },
    }
}

} // verus!
