//! Unified Diagnostic Services (ISO 14229): commands, negative response codes and the
//! decoding of replies.

use vstd::prelude::*;
use vstd::string::*;
use crate::text::{push_str, push_hex2, hex2};
use crate::protocols::{CautionLevel, CommandError, ECUCommand, Selectable, DTC, ProtocolError,
    ProtocolResult, ECUError, reply_readable};

pub mod diag_session_control;
pub mod read_data;
pub mod read_dtc_info;
pub mod request;

verus! {

/// A UDS service identifier.
#[derive(Copy, Clone, Debug, PartialEq, Eq, Structural, PartialOrd, Ord)]
pub enum UDSCommand {
    DiagnosticSessionControl,
    ECUReset,
    ClearDTCInformation,
    ReadDTCInformation,
    ReadDataByID,
    ReadMemoryByAddress,
    ReadScalingDataById,
    SecurityAccess,
    CommunicationControl,
    Authentication,
    ReadDataByPeriodicID,
    DynamicDefineDataId,
    WriteDataByID,
    IOCTLById,
    RoutineControl,
    RequestDownload,
    RequestUpload,
    TransferData,
    TransferExit,
    WriteMemoryByAddress,
    TesterPresent,
    RequestFileTransfer,
    ControlDTCSetting,
    LinkControl,
}

/// The service identifier byte of a command.
pub open spec fn uds_command_byte(c: UDSCommand) -> u8 {
    match c {
        UDSCommand::DiagnosticSessionControl => 0x10,
        UDSCommand::ECUReset => 0x11,
        UDSCommand::ClearDTCInformation => 0x14,
        UDSCommand::ReadDTCInformation => 0x19,
        UDSCommand::ReadDataByID => 0x22,
        UDSCommand::ReadMemoryByAddress => 0x23,
        UDSCommand::ReadScalingDataById => 0x24,
        UDSCommand::SecurityAccess => 0x27,
        UDSCommand::CommunicationControl => 0x28,
        UDSCommand::Authentication => 0x29,
        UDSCommand::ReadDataByPeriodicID => 0x2A,
        UDSCommand::DynamicDefineDataId => 0x2C,
        UDSCommand::WriteDataByID => 0x2E,
        UDSCommand::IOCTLById => 0x2F,
        UDSCommand::RoutineControl => 0x31,
        UDSCommand::RequestDownload => 0x34,
        UDSCommand::RequestUpload => 0x35,
        UDSCommand::TransferData => 0x36,
        UDSCommand::TransferExit => 0x37,
        UDSCommand::WriteMemoryByAddress => 0x3D,
        UDSCommand::TesterPresent => 0x3E,
        UDSCommand::RequestFileTransfer => 0x3F,
        UDSCommand::ControlDTCSetting => 0x85,
        UDSCommand::LinkControl => 0x87,
    }
}

/// Every command's service byte is an ISO 14229 request identifier (0x10-0x3F or
/// 0x80-0x8F) that no other command shares. The reply decoder reads that byte, and the
/// positive reply byte (service byte plus 0x40), as the service with that same request
/// byte, for every command the decoder knows (all but DynamicDefineDataId,
/// RequestFileTransfer and LinkControl).
pub proof fn lemma_service_identifiers(c: UDSCommand)
    ensures
        (0x10 <= uds_command_byte(c) <= 0x3F) || (0x80 <= uds_command_byte(c) <= 0x8F),
        forall|d: UDSCommand| d != c ==> #[trigger] uds_command_byte(d) != uds_command_byte(c),
        !(c == UDSCommand::DynamicDefineDataId || c == UDSCommand::RequestFileTransfer || c == UDSCommand::LinkControl) ==> {
            let known = request::command_from_byte(uds_command_byte(c));
            &&& known is Some
            &&& request::request_byte(known->Some_0) == uds_command_byte(c)
            &&& request::command_from_byte((uds_command_byte(c) + 0x40) as u8) == known
        },
{
}

/// The name of a command.
pub open spec fn uds_command_name(c: UDSCommand) -> Seq<char> {
    match c {
        UDSCommand::DiagnosticSessionControl => "DiagnosticSessionControl"@,
        UDSCommand::ECUReset => "ECUReset"@,
        UDSCommand::ClearDTCInformation => "ClearDTCInformation"@,
        UDSCommand::ReadDTCInformation => "ReadDTCInformation"@,
        UDSCommand::ReadDataByID => "ReadDataByID"@,
        UDSCommand::ReadMemoryByAddress => "ReadMemoryByAddress"@,
        UDSCommand::ReadScalingDataById => "ReadScalingDataById"@,
        UDSCommand::SecurityAccess => "SecurityAccess"@,
        UDSCommand::CommunicationControl => "CommunicationControl"@,
        UDSCommand::Authentication => "Authentication"@,
        UDSCommand::ReadDataByPeriodicID => "ReadDataByPeriodicID"@,
        UDSCommand::DynamicDefineDataId => "DynamicDefineDataId"@,
        UDSCommand::WriteDataByID => "WriteDataByID"@,
        UDSCommand::IOCTLById => "IOCTLById"@,
        UDSCommand::RoutineControl => "RoutineControl"@,
        UDSCommand::RequestDownload => "RequestDownload"@,
        UDSCommand::RequestUpload => "RequestUpload"@,
        UDSCommand::TransferData => "TransferData"@,
        UDSCommand::TransferExit => "TransferExit"@,
        UDSCommand::WriteMemoryByAddress => "WriteMemoryByAddress"@,
        UDSCommand::TesterPresent => "TesterPresent"@,
        UDSCommand::RequestFileTransfer => "RequestFileTransfer"@,
        UDSCommand::ControlDTCSetting => "ControlDTCSetting"@,
        UDSCommand::LinkControl => "LinkControl"@,
    }
}

/// How risky a command is.
pub open spec fn uds_command_caution(c: UDSCommand) -> CautionLevel {
    match c {
        UDSCommand::DiagnosticSessionControl => CautionLevel::Warn,
        UDSCommand::ECUReset => CautionLevel::Alert,
        UDSCommand::ClearDTCInformation => CautionLevel::Harmless,
        UDSCommand::ReadDTCInformation => CautionLevel::Harmless,
        UDSCommand::ReadDataByID => CautionLevel::Harmless,
        UDSCommand::ReadMemoryByAddress => CautionLevel::Warn,
        UDSCommand::ReadScalingDataById => CautionLevel::Warn,
        UDSCommand::SecurityAccess => CautionLevel::Alert,
        UDSCommand::CommunicationControl => CautionLevel::Warn,
        UDSCommand::Authentication => CautionLevel::Alert,
        UDSCommand::ReadDataByPeriodicID => CautionLevel::Warn,
        UDSCommand::DynamicDefineDataId => CautionLevel::Alert,
        UDSCommand::WriteDataByID => CautionLevel::Alert,
        UDSCommand::IOCTLById => CautionLevel::Alert,
        UDSCommand::RoutineControl => CautionLevel::Warn,
        UDSCommand::RequestDownload => CautionLevel::Alert,
        UDSCommand::RequestUpload => CautionLevel::Alert,
        UDSCommand::TransferData => CautionLevel::Alert,
        UDSCommand::TransferExit => CautionLevel::Alert,
        UDSCommand::WriteMemoryByAddress => CautionLevel::Alert,
        UDSCommand::TesterPresent => CautionLevel::Harmless,
        UDSCommand::RequestFileTransfer => CautionLevel::Alert,
        UDSCommand::ControlDTCSetting => CautionLevel::Warn,
        UDSCommand::LinkControl => CautionLevel::Warn,
    }
}

/// The commands offered for a user to run (all but session control and tester present).
pub open spec fn uds_command_list() -> Seq<UDSCommand> {
    seq![
        UDSCommand::ECUReset,
        UDSCommand::ClearDTCInformation,
        UDSCommand::ReadDTCInformation,
        UDSCommand::ReadDataByID,
        UDSCommand::ReadMemoryByAddress,
        UDSCommand::ReadScalingDataById,
        UDSCommand::SecurityAccess,
        UDSCommand::CommunicationControl,
        UDSCommand::Authentication,
        UDSCommand::ReadDataByPeriodicID,
        UDSCommand::DynamicDefineDataId,
        UDSCommand::WriteDataByID,
        UDSCommand::IOCTLById,
        UDSCommand::RoutineControl,
        UDSCommand::RequestDownload,
        UDSCommand::RequestUpload,
        UDSCommand::TransferData,
        UDSCommand::TransferExit,
        UDSCommand::WriteMemoryByAddress,
        UDSCommand::RequestFileTransfer,
        UDSCommand::ControlDTCSetting,
        UDSCommand::LinkControl
    ]
}

impl UDSCommand {
    /// The service identifier byte.
    pub fn to_byte(&self) -> (r: u8)
        ensures
            r == uds_command_byte(*self),
    {
        match self {
            UDSCommand::DiagnosticSessionControl => 0x10,
            UDSCommand::ECUReset => 0x11,
            UDSCommand::ClearDTCInformation => 0x14,
            UDSCommand::ReadDTCInformation => 0x19,
            UDSCommand::ReadDataByID => 0x22,
            UDSCommand::ReadMemoryByAddress => 0x23,
            UDSCommand::ReadScalingDataById => 0x24,
            UDSCommand::SecurityAccess => 0x27,
            UDSCommand::CommunicationControl => 0x28,
            UDSCommand::Authentication => 0x29,
            UDSCommand::ReadDataByPeriodicID => 0x2A,
            UDSCommand::DynamicDefineDataId => 0x2C,
            UDSCommand::WriteDataByID => 0x2E,
            UDSCommand::IOCTLById => 0x2F,
            UDSCommand::RoutineControl => 0x31,
            UDSCommand::RequestDownload => 0x34,
            UDSCommand::RequestUpload => 0x35,
            UDSCommand::TransferData => 0x36,
            UDSCommand::TransferExit => 0x37,
            UDSCommand::WriteMemoryByAddress => 0x3D,
            UDSCommand::TesterPresent => 0x3E,
            UDSCommand::RequestFileTransfer => 0x3F,
            UDSCommand::ControlDTCSetting => 0x85,
            UDSCommand::LinkControl => 0x87,
        }
    }

    /// The name of the command.
    pub fn to_string(&self) -> (r: String)
        ensures
            r@ == uds_command_name(*self),
    {
        self.get_name()
    }
}

impl Selectable for UDSCommand {
    fn get_name(&self) -> (r: String)
        ensures
            r@ == uds_command_name(*self),
    {
        let t: &str = match self {
            UDSCommand::DiagnosticSessionControl => "DiagnosticSessionControl",
            UDSCommand::ECUReset => "ECUReset",
            UDSCommand::ClearDTCInformation => "ClearDTCInformation",
            UDSCommand::ReadDTCInformation => "ReadDTCInformation",
            UDSCommand::ReadDataByID => "ReadDataByID",
            UDSCommand::ReadMemoryByAddress => "ReadMemoryByAddress",
            UDSCommand::ReadScalingDataById => "ReadScalingDataById",
            UDSCommand::SecurityAccess => "SecurityAccess",
            UDSCommand::CommunicationControl => "CommunicationControl",
            UDSCommand::Authentication => "Authentication",
            UDSCommand::ReadDataByPeriodicID => "ReadDataByPeriodicID",
            UDSCommand::DynamicDefineDataId => "DynamicDefineDataId",
            UDSCommand::WriteDataByID => "WriteDataByID",
            UDSCommand::IOCTLById => "IOCTLById",
            UDSCommand::RoutineControl => "RoutineControl",
            UDSCommand::RequestDownload => "RequestDownload",
            UDSCommand::RequestUpload => "RequestUpload",
            UDSCommand::TransferData => "TransferData",
            UDSCommand::TransferExit => "TransferExit",
            UDSCommand::WriteMemoryByAddress => "WriteMemoryByAddress",
            UDSCommand::TesterPresent => "TesterPresent",
            UDSCommand::RequestFileTransfer => "RequestFileTransfer",
            UDSCommand::ControlDTCSetting => "ControlDTCSetting",
            UDSCommand::LinkControl => "LinkControl",
        };
        String::from_str(t)
    }

    /// No command has a description yet; each gives the placeholder `--TODO--`.
    fn get_desc(&self) -> (r: String)
        ensures
            r@ == "--TODO--"@,
    {
        String::from_str("--TODO--")
    }
}

impl ECUCommand for UDSCommand {
    fn get_caution_level(&self) -> (r: CautionLevel)
        ensures
            r == uds_command_caution(*self),
    {
        match self {
            UDSCommand::DiagnosticSessionControl => CautionLevel::Warn,
            UDSCommand::ECUReset => CautionLevel::Alert,
            UDSCommand::ClearDTCInformation => CautionLevel::Harmless,
            UDSCommand::ReadDTCInformation => CautionLevel::Harmless,
            UDSCommand::ReadDataByID => CautionLevel::Harmless,
            UDSCommand::ReadMemoryByAddress => CautionLevel::Warn,
            UDSCommand::ReadScalingDataById => CautionLevel::Warn,
            UDSCommand::SecurityAccess => CautionLevel::Alert,
            UDSCommand::CommunicationControl => CautionLevel::Warn,
            UDSCommand::Authentication => CautionLevel::Alert,
            UDSCommand::ReadDataByPeriodicID => CautionLevel::Warn,
            UDSCommand::DynamicDefineDataId => CautionLevel::Alert,
            UDSCommand::WriteDataByID => CautionLevel::Alert,
            UDSCommand::IOCTLById => CautionLevel::Alert,
            UDSCommand::RoutineControl => CautionLevel::Warn,
            UDSCommand::RequestDownload => CautionLevel::Alert,
            UDSCommand::RequestUpload => CautionLevel::Alert,
            UDSCommand::TransferData => CautionLevel::Alert,
            UDSCommand::TransferExit => CautionLevel::Alert,
            UDSCommand::WriteMemoryByAddress => CautionLevel::Alert,
            UDSCommand::TesterPresent => CautionLevel::Harmless,
            UDSCommand::RequestFileTransfer => CautionLevel::Alert,
            UDSCommand::ControlDTCSetting => CautionLevel::Warn,
            UDSCommand::LinkControl => CautionLevel::Warn,
        }
    }

    fn get_cmd_list() -> (r: Vec<Self>)
        ensures
            r@ == uds_command_list(),
    {
        let mut r: Vec<UDSCommand> = Vec::new();
        r.push(UDSCommand::ECUReset);
        r.push(UDSCommand::ClearDTCInformation);
        r.push(UDSCommand::ReadDTCInformation);
        r.push(UDSCommand::ReadDataByID);
        r.push(UDSCommand::ReadMemoryByAddress);
        r.push(UDSCommand::ReadScalingDataById);
        r.push(UDSCommand::SecurityAccess);
        r.push(UDSCommand::CommunicationControl);
        r.push(UDSCommand::Authentication);
        r.push(UDSCommand::ReadDataByPeriodicID);
        r.push(UDSCommand::DynamicDefineDataId);
        r.push(UDSCommand::WriteDataByID);
        r.push(UDSCommand::IOCTLById);
        r.push(UDSCommand::RoutineControl);
        r.push(UDSCommand::RequestDownload);
        r.push(UDSCommand::RequestUpload);
        r.push(UDSCommand::TransferData);
        r.push(UDSCommand::TransferExit);
        r.push(UDSCommand::WriteMemoryByAddress);
        r.push(UDSCommand::RequestFileTransfer);
        r.push(UDSCommand::ControlDTCSetting);
        r.push(UDSCommand::LinkControl);
        assert(r@ =~= uds_command_list());
        r
    }
}

/// A UDS negative response code.
#[derive(Copy, Debug, Clone, PartialEq, Eq, Structural)]
pub enum UDSNegativeCode {
    GeneralReject,
    ServiceNotSupported,
    SubFunctionNotSupported,
    IncorrectMessageLength,
    ResponseTooLong,
    BusyRepeatRequest,
    ConditionsNotCorrect,
    RequestSequenceError,
    RequestOutOfRange,
    SecurityAccessDenied,
    InvalidKey,
    ExceedNumberOfAttempts,
    RequiredTimeDelayNotExpired,
    UploadDownloadNotAccepted,
    TransferDataSuspended,
    GeneralProgrammingFailure,
    WrongBlockSequenceCounter,
    ResponsePending,
    SubFunctionNotSupportedActiveSession,
    ServiceNotSupportedActiveSession,
    RpmTooHigh,
    RpmTooLow,
    EngineIsRunning,
    EngineIsNotRunning,
    EngineRunTimeTooLow,
    TempTooHigh,
    TempTooLow,
    SpeedTooHigh,
    SpeedTooLow,
    ThrottleTooHigh,
    ThrottleTooLow,
    TransmissionNotInNeutral,
    TransmissionNotInGear,
    BrakeNotApplied,
    ShifterNotInPark,
    TorqueConverterClutchLocked,
    VoltageTooHigh,
    VoltageTooLow,
    ReservedSpecificConditionsIncorrect,
    NoResponseSubnetComponent,
    FailurePreventsExecutionOfRequestedAction,
    Reserved(u8),
}

/// The negative response that a code byte stands for; codes that the standard leaves
/// reserved are kept with their byte.
pub open spec fn uds_negative_from_byte(b: u8) -> UDSNegativeCode {
    if b == 0x10 { UDSNegativeCode::GeneralReject }
    else if b == 0x11 { UDSNegativeCode::ServiceNotSupported }
    else if b == 0x12 { UDSNegativeCode::SubFunctionNotSupported }
    else if b == 0x13 { UDSNegativeCode::IncorrectMessageLength }
    else if b == 0x14 { UDSNegativeCode::ResponseTooLong }
    else if b == 0x21 { UDSNegativeCode::BusyRepeatRequest }
    else if b == 0x22 { UDSNegativeCode::ConditionsNotCorrect }
    else if b == 0x24 { UDSNegativeCode::RequestSequenceError }
    else if b == 0x25 { UDSNegativeCode::NoResponseSubnetComponent }
    else if b == 0x26 { UDSNegativeCode::FailurePreventsExecutionOfRequestedAction }
    else if b == 0x31 { UDSNegativeCode::RequestOutOfRange }
    else if b == 0x33 { UDSNegativeCode::SecurityAccessDenied }
    else if b == 0x35 { UDSNegativeCode::InvalidKey }
    else if b == 0x36 { UDSNegativeCode::ExceedNumberOfAttempts }
    else if b == 0x37 { UDSNegativeCode::RequiredTimeDelayNotExpired }
    else if b == 0x70 { UDSNegativeCode::UploadDownloadNotAccepted }
    else if b == 0x71 { UDSNegativeCode::TransferDataSuspended }
    else if b == 0x72 { UDSNegativeCode::GeneralProgrammingFailure }
    else if b == 0x73 { UDSNegativeCode::WrongBlockSequenceCounter }
    else if b == 0x78 { UDSNegativeCode::ResponsePending }
    else if b == 0x7E { UDSNegativeCode::SubFunctionNotSupportedActiveSession }
    else if b == 0x7F { UDSNegativeCode::ServiceNotSupportedActiveSession }
    else if b == 0x81 { UDSNegativeCode::RpmTooHigh }
    else if b == 0x82 { UDSNegativeCode::RpmTooLow }
    else if b == 0x83 { UDSNegativeCode::EngineIsRunning }
    else if b == 0x84 { UDSNegativeCode::EngineIsNotRunning }
    else if b == 0x85 { UDSNegativeCode::EngineRunTimeTooLow }
    else if b == 0x86 { UDSNegativeCode::TempTooHigh }
    else if b == 0x87 { UDSNegativeCode::TempTooLow }
    else if b == 0x88 { UDSNegativeCode::SpeedTooHigh }
    else if b == 0x89 { UDSNegativeCode::SpeedTooLow }
    else if b == 0x8A { UDSNegativeCode::ThrottleTooHigh }
    else if b == 0x8B { UDSNegativeCode::ThrottleTooLow }
    else if b == 0x8C { UDSNegativeCode::TransmissionNotInNeutral }
    else if b == 0x8D { UDSNegativeCode::TransmissionNotInGear }
    else if b == 0x8F { UDSNegativeCode::BrakeNotApplied }
    else if b == 0x90 { UDSNegativeCode::ShifterNotInPark }
    else if b == 0x91 { UDSNegativeCode::TorqueConverterClutchLocked }
    else if b == 0x92 { UDSNegativeCode::VoltageTooHigh }
    else if b == 0x93 { UDSNegativeCode::VoltageTooLow }
    else { UDSNegativeCode::Reserved(b) }
}

/// The description of a negative response.
pub open spec fn uds_negative_desc(n: UDSNegativeCode) -> Seq<char> {
    match n {
        UDSNegativeCode::GeneralReject => "General reject"@,
        UDSNegativeCode::ServiceNotSupported => "Service is not supported"@,
        UDSNegativeCode::SubFunctionNotSupported => "Sub function is not supported"@,
        UDSNegativeCode::IncorrectMessageLength => "Incorrect message length"@,
        UDSNegativeCode::ResponseTooLong => "Response is too long for transport protocol"@,
        UDSNegativeCode::BusyRepeatRequest => "ECU is busy"@,
        UDSNegativeCode::ConditionsNotCorrect => "Conditions are not correct"@,
        UDSNegativeCode::RequestSequenceError => "Message sequence is not correct"@,
        UDSNegativeCode::RequestOutOfRange => "Requested data is out of range"@,
        UDSNegativeCode::SecurityAccessDenied => "Security access is denied"@,
        UDSNegativeCode::InvalidKey => "Invalid key"@,
        UDSNegativeCode::ExceedNumberOfAttempts => "Exceeded number of access attempts"@,
        UDSNegativeCode::RequiredTimeDelayNotExpired => "Security timeout has not expired"@,
        UDSNegativeCode::UploadDownloadNotAccepted => "Upload/Download is not accepted"@,
        UDSNegativeCode::TransferDataSuspended => "Transfer operation halted"@,
        UDSNegativeCode::GeneralProgrammingFailure => "Programming error"@,
        UDSNegativeCode::WrongBlockSequenceCounter => "Error in block sequence"@,
        UDSNegativeCode::ResponsePending => "ECU is responding. Wait"@,
        UDSNegativeCode::SubFunctionNotSupportedActiveSession => "Function is not supported in this diagnostic session"@,
        UDSNegativeCode::ServiceNotSupportedActiveSession => "Service is not supported in this diagnostic session"@,
        UDSNegativeCode::RpmTooHigh => "Engine RPM is too high"@,
        UDSNegativeCode::RpmTooLow => "Engine RPM is too low"@,
        UDSNegativeCode::EngineIsRunning => "Engine is running"@,
        UDSNegativeCode::EngineIsNotRunning => "Engine is not running"@,
        UDSNegativeCode::EngineRunTimeTooLow => "Engine has not been on for long enough"@,
        UDSNegativeCode::TempTooHigh => "Engine temperature is too high"@,
        UDSNegativeCode::TempTooLow => "Engine temperature is too low"@,
        UDSNegativeCode::SpeedTooHigh => "Vehicle speed is too high"@,
        UDSNegativeCode::SpeedTooLow => "Vehicle speed is too low"@,
        UDSNegativeCode::ThrottleTooHigh => "Throttle is too high"@,
        UDSNegativeCode::ThrottleTooLow => "Throttle is too low"@,
        UDSNegativeCode::TransmissionNotInNeutral => "Transmission is not in neutral"@,
        UDSNegativeCode::TransmissionNotInGear => "Transmission is not in gear"@,
        UDSNegativeCode::BrakeNotApplied => "Brake is not applied"@,
        UDSNegativeCode::ShifterNotInPark => "Transmission is not in park"@,
        UDSNegativeCode::TorqueConverterClutchLocked => "Torque converter clutch is locked"@,
        UDSNegativeCode::VoltageTooHigh => "Voltage is too high"@,
        UDSNegativeCode::VoltageTooLow => "Voltage is too low"@,
        UDSNegativeCode::ReservedSpecificConditionsIncorrect => "Failure condition for test met"@,
        UDSNegativeCode::NoResponseSubnetComponent => "Subnet component did not respond"@,
        UDSNegativeCode::FailurePreventsExecutionOfRequestedAction => ""@,
        UDSNegativeCode::Reserved(b) => "Reserved error 0x"@ + hex2(b),
    }
}

impl CommandError for UDSNegativeCode {
    fn get_desc(&self) -> (r: String)
        ensures
            r@ == uds_negative_desc(*self),
    {
        let t: &str = match self {
            UDSNegativeCode::GeneralReject => "General reject",
            UDSNegativeCode::ServiceNotSupported => "Service is not supported",
            UDSNegativeCode::SubFunctionNotSupported => "Sub function is not supported",
            UDSNegativeCode::IncorrectMessageLength => "Incorrect message length",
            UDSNegativeCode::ResponseTooLong => "Response is too long for transport protocol",
            UDSNegativeCode::BusyRepeatRequest => "ECU is busy",
            UDSNegativeCode::ConditionsNotCorrect => "Conditions are not correct",
            UDSNegativeCode::RequestSequenceError => "Message sequence is not correct",
            UDSNegativeCode::RequestOutOfRange => "Requested data is out of range",
            UDSNegativeCode::SecurityAccessDenied => "Security access is denied",
            UDSNegativeCode::InvalidKey => "Invalid key",
            UDSNegativeCode::ExceedNumberOfAttempts => "Exceeded number of access attempts",
            UDSNegativeCode::RequiredTimeDelayNotExpired => "Security timeout has not expired",
            UDSNegativeCode::UploadDownloadNotAccepted => "Upload/Download is not accepted",
            UDSNegativeCode::TransferDataSuspended => "Transfer operation halted",
            UDSNegativeCode::GeneralProgrammingFailure => "Programming error",
            UDSNegativeCode::WrongBlockSequenceCounter => "Error in block sequence",
            UDSNegativeCode::ResponsePending => "ECU is responding. Wait",
            UDSNegativeCode::SubFunctionNotSupportedActiveSession => "Function is not supported in this diagnostic session",
            UDSNegativeCode::ServiceNotSupportedActiveSession => "Service is not supported in this diagnostic session",
            UDSNegativeCode::RpmTooHigh => "Engine RPM is too high",
            UDSNegativeCode::RpmTooLow => "Engine RPM is too low",
            UDSNegativeCode::EngineIsRunning => "Engine is running",
            UDSNegativeCode::EngineIsNotRunning => "Engine is not running",
            UDSNegativeCode::EngineRunTimeTooLow => "Engine has not been on for long enough",
            UDSNegativeCode::TempTooHigh => "Engine temperature is too high",
            UDSNegativeCode::TempTooLow => "Engine temperature is too low",
            UDSNegativeCode::SpeedTooHigh => "Vehicle speed is too high",
            UDSNegativeCode::SpeedTooLow => "Vehicle speed is too low",
            UDSNegativeCode::ThrottleTooHigh => "Throttle is too high",
            UDSNegativeCode::ThrottleTooLow => "Throttle is too low",
            UDSNegativeCode::TransmissionNotInNeutral => "Transmission is not in neutral",
            UDSNegativeCode::TransmissionNotInGear => "Transmission is not in gear",
            UDSNegativeCode::BrakeNotApplied => "Brake is not applied",
            UDSNegativeCode::ShifterNotInPark => "Transmission is not in park",
            UDSNegativeCode::TorqueConverterClutchLocked => "Torque converter clutch is locked",
            UDSNegativeCode::VoltageTooHigh => "Voltage is too high",
            UDSNegativeCode::VoltageTooLow => "Voltage is too low",
            UDSNegativeCode::ReservedSpecificConditionsIncorrect => "Failure condition for test met",
            UDSNegativeCode::NoResponseSubnetComponent => "Subnet component did not respond",
            UDSNegativeCode::FailurePreventsExecutionOfRequestedAction => "",
            UDSNegativeCode::Reserved(b) => {
                let mut s = String::new();
                proof { reveal_strlit("Reserved error 0x"); }
                push_str(&mut s, "Reserved error 0x");
                push_hex2(&mut s, *b);
                return s;
            },
        };
        String::from_str(t)
    }

    /// No negative response has a help text yet.
    fn get_help(&self) -> (r: Option<String>)
        ensures
            r is None,
    {
        None
    }

    fn from_byte(b: u8) -> (r: Self)
        ensures
            r == uds_negative_from_byte(b),
    {
        match b {
            0x10 => UDSNegativeCode::GeneralReject,
            0x11 => UDSNegativeCode::ServiceNotSupported,
            0x12 => UDSNegativeCode::SubFunctionNotSupported,
            0x13 => UDSNegativeCode::IncorrectMessageLength,
            0x14 => UDSNegativeCode::ResponseTooLong,
            0x21 => UDSNegativeCode::BusyRepeatRequest,
            0x22 => UDSNegativeCode::ConditionsNotCorrect,
            0x24 => UDSNegativeCode::RequestSequenceError,
            0x25 => UDSNegativeCode::NoResponseSubnetComponent,
            0x26 => UDSNegativeCode::FailurePreventsExecutionOfRequestedAction,
            0x31 => UDSNegativeCode::RequestOutOfRange,
            0x33 => UDSNegativeCode::SecurityAccessDenied,
            0x35 => UDSNegativeCode::InvalidKey,
            0x36 => UDSNegativeCode::ExceedNumberOfAttempts,
            0x37 => UDSNegativeCode::RequiredTimeDelayNotExpired,
            0x70 => UDSNegativeCode::UploadDownloadNotAccepted,
            0x71 => UDSNegativeCode::TransferDataSuspended,
            0x72 => UDSNegativeCode::GeneralProgrammingFailure,
            0x73 => UDSNegativeCode::WrongBlockSequenceCounter,
            0x78 => UDSNegativeCode::ResponsePending,
            0x7E => UDSNegativeCode::SubFunctionNotSupportedActiveSession,
            0x7F => UDSNegativeCode::ServiceNotSupportedActiveSession,
            0x81 => UDSNegativeCode::RpmTooHigh,
            0x82 => UDSNegativeCode::RpmTooLow,
            0x83 => UDSNegativeCode::EngineIsRunning,
            0x84 => UDSNegativeCode::EngineIsNotRunning,
            0x85 => UDSNegativeCode::EngineRunTimeTooLow,
            0x86 => UDSNegativeCode::TempTooHigh,
            0x87 => UDSNegativeCode::TempTooLow,
            0x88 => UDSNegativeCode::SpeedTooHigh,
            0x89 => UDSNegativeCode::SpeedTooLow,
            0x8A => UDSNegativeCode::ThrottleTooHigh,
            0x8B => UDSNegativeCode::ThrottleTooLow,
            0x8C => UDSNegativeCode::TransmissionNotInNeutral,
            0x8D => UDSNegativeCode::TransmissionNotInGear,
            0x8F => UDSNegativeCode::BrakeNotApplied,
            0x90 => UDSNegativeCode::ShifterNotInPark,
            0x91 => UDSNegativeCode::TorqueConverterClutchLocked,
            0x92 => UDSNegativeCode::VoltageTooHigh,
            0x93 => UDSNegativeCode::VoltageTooLow,
            _ => UDSNegativeCode::Reserved(b),
        }
    }
}
/// Checks a reply relayed by a UDS session: a negative reply becomes the UDS error for
/// its code; any other reply is returned unchanged.
pub fn check_reply(resp: Vec<u8>) -> (r: ProtocolResult<Vec<u8>>)
    requires
        reply_readable(resp@),
    ensures
        resp@[0] == 0x7F ==> r == Err::<Vec<u8>, ProtocolError>(ProtocolError::ProtocolError(
            ECUError::UDS(uds_negative_from_byte(resp@[2])))),
        resp@[0] != 0x7F ==> r == Ok::<Vec<u8>, ProtocolError>(resp),
{
    if resp[0] == 0x7F {
        let neg_code = <UDSNegativeCode as CommandError>::from_byte(resp[2]);
        Err(ProtocolError::ProtocolError(ECUError::UDS(neg_code)))
    } else {
        Ok(resp)
    }
}

/// The arguments that clear every trouble code.
pub fn clear_errors_args() -> (r: [u8; 2])
    ensures
        r@ == seq![0xFFu8, 0x00u8],
{
    let r = [0xFF, 0x00];
    assert(r@ =~= seq![0xFFu8, 0x00u8]);
    r
}

} // verus!
