//! Keyword Protocol 2000 (ISO 14230 application layer, as used by DaimlerChrysler):
//! services, sessions, negative responses and the decoding of replies.

use vstd::prelude::*;
use vstd::string::*;
use crate::text::{push_str, push_hex2, push_decimal, hex2, decimal};
use crate::protocols::{CautionLevel, CommandError, ECUCommand, Selectable, DTC, DTCState,
    ProtocolError, ProtocolResult, ECUError, reply_readable};
use crate::protocols::uds::UDSCommand;

pub mod clear_diag_information;
pub mod ecu_reset;
pub mod read_ecu_identification;
pub mod read_status_dtc;
pub mod start_diag_session;

verus! {

/// A KWP2000 service.
#[derive(Debug, Copy, Clone, PartialEq, Eq, Structural, PartialOrd, Ord)]
pub enum Service {
    StartDiagSession,
    ECUReset,
    ClearDiagnosticInformation,
    ReadDTCStatus,
    ReadDTCByStatus,
    ReadECUID,
    ReadDataByLocalID,
    ReadDataByID,
    ReadMemoryByAddress,
    SecurityAccess,
    DisableNormalMsgTransmission,
    EnableNormalMsgTransmission,
    DynamicallyDefineLocalID,
    WriteDataByID,
    IOCTLByLocalID,
    StartRoutineByLocalID,
    StopRoutineByLocalID,
    RequestRoutineResultsByLocalID,
    RequestDownload,
    RequestUpload,
    TransferData,
    RequestTransferExit,
    WriteDataByLocalID,
    WriteMemoryByAddress,
    TesterPresent,
    ControlDTCSettings,
    ResponseOnEvent,
    SupplierCustom(u8),
}

/// The service identifier byte of a service.
pub open spec fn service_byte(s: Service) -> u8 {
    match s {
        Service::StartDiagSession => 0x10,
        Service::ECUReset => 0x11,
        Service::ClearDiagnosticInformation => 0x14,
        Service::ReadDTCStatus => 0x17,
        Service::ReadDTCByStatus => 0x18,
        Service::ReadECUID => 0x1A,
        Service::ReadDataByLocalID => 0x21,
        Service::ReadDataByID => 0x22,
        Service::ReadMemoryByAddress => 0x23,
        Service::SecurityAccess => 0x27,
        Service::DisableNormalMsgTransmission => 0x28,
        Service::EnableNormalMsgTransmission => 0x29,
        Service::DynamicallyDefineLocalID => 0x2C,
        Service::WriteDataByID => 0x2E,
        Service::IOCTLByLocalID => 0x30,
        Service::StartRoutineByLocalID => 0x31,
        Service::StopRoutineByLocalID => 0x32,
        Service::RequestRoutineResultsByLocalID => 0x33,
        Service::RequestDownload => 0x34,
        Service::RequestUpload => 0x35,
        Service::TransferData => 0x36,
        Service::RequestTransferExit => 0x37,
        Service::WriteDataByLocalID => 0x3B,
        Service::WriteMemoryByAddress => 0x3D,
        Service::TesterPresent => 0x3E,
        Service::ControlDTCSettings => 0x85,
        Service::ResponseOnEvent => 0x86,
        Service::SupplierCustom(sid) => sid,
    }
}

/// Every standard KWP2000 service has a request identifier in 0x10-0x3E or 0x80-0x8F
/// that no other standard service shares, and the services KWP2000 has in common with UDS
/// use the same identifiers in both.
pub proof fn lemma_kwp_service_identifiers(s: Service)
    ensures
        !(s is SupplierCustom) ==> (0x10 <= service_byte(s) <= 0x3E || 0x80 <= service_byte(s) <= 0x8F),
        forall|t: Service| !(s is SupplierCustom) && !(t is SupplierCustom) && t != s
            ==> #[trigger] service_byte(t) != service_byte(s),
        service_byte(Service::StartDiagSession) == crate::protocols::uds::uds_command_byte(UDSCommand::DiagnosticSessionControl),
        service_byte(Service::ECUReset) == crate::protocols::uds::uds_command_byte(UDSCommand::ECUReset),
        service_byte(Service::ClearDiagnosticInformation) == crate::protocols::uds::uds_command_byte(UDSCommand::ClearDTCInformation),
        service_byte(Service::ReadDataByID) == crate::protocols::uds::uds_command_byte(UDSCommand::ReadDataByID),
        service_byte(Service::ReadMemoryByAddress) == crate::protocols::uds::uds_command_byte(UDSCommand::ReadMemoryByAddress),
        service_byte(Service::SecurityAccess) == crate::protocols::uds::uds_command_byte(UDSCommand::SecurityAccess),
        service_byte(Service::WriteDataByID) == crate::protocols::uds::uds_command_byte(UDSCommand::WriteDataByID),
        service_byte(Service::RequestDownload) == crate::protocols::uds::uds_command_byte(UDSCommand::RequestDownload),
        service_byte(Service::RequestUpload) == crate::protocols::uds::uds_command_byte(UDSCommand::RequestUpload),
        service_byte(Service::TransferData) == crate::protocols::uds::uds_command_byte(UDSCommand::TransferData),
        service_byte(Service::RequestTransferExit) == crate::protocols::uds::uds_command_byte(UDSCommand::TransferExit),
        service_byte(Service::WriteMemoryByAddress) == crate::protocols::uds::uds_command_byte(UDSCommand::WriteMemoryByAddress),
        service_byte(Service::TesterPresent) == crate::protocols::uds::uds_command_byte(UDSCommand::TesterPresent),
        service_byte(Service::ControlDTCSettings) == crate::protocols::uds::uds_command_byte(UDSCommand::ControlDTCSetting),
{
}

/// The description of a service.
pub open spec fn service_desc(s: Service) -> Seq<char> {
    match s {
        Service::StartDiagSession => "Start diagnostic session"@,
        Service::ECUReset => "Reset ECU"@,
        Service::ClearDiagnosticInformation => "Clear diagnostic information"@,
        Service::ReadDTCStatus => "Read diagnostic trouble status"@,
        Service::ReadDTCByStatus => "Read diagnostic trouble codes by status"@,
        Service::ReadECUID => "Read ECU Identification data"@,
        Service::ReadDataByLocalID => "Read data by local ID"@,
        Service::ReadDataByID => "Read data by ID"@,
        Service::ReadMemoryByAddress => "Read memory by address"@,
        Service::SecurityAccess => "Security access"@,
        Service::DisableNormalMsgTransmission => "Disable normal message transmission"@,
        Service::EnableNormalMsgTransmission => "Enable normal message transmission"@,
        Service::DynamicallyDefineLocalID => "Dynamically define local ID"@,
        Service::WriteDataByID => "Write data by ID"@,
        Service::IOCTLByLocalID => "IOCTL by local ID"@,
        Service::StartRoutineByLocalID => "Start routine by local ID"@,
        Service::StopRoutineByLocalID => "Stop routine by local ID"@,
        Service::RequestRoutineResultsByLocalID => "Request routine results by local ID"@,
        Service::RequestDownload => "Request download"@,
        Service::RequestUpload => "Request upload"@,
        Service::TransferData => "Transfer data"@,
        Service::RequestTransferExit => "Request transfer exit"@,
        Service::WriteDataByLocalID => "Write data by local ID"@,
        Service::WriteMemoryByAddress => "Write memory by address"@,
        Service::TesterPresent => "Tester present"@,
        Service::ControlDTCSettings => "Control DTC Settings"@,
        Service::ResponseOnEvent => "Response on event"@,
        Service::SupplierCustom(x) => "Custom("@ + hex2(x) + ")"@,
    }
}

/// The name of a service.
pub open spec fn service_name(s: Service) -> Seq<char> {
    match s {
        Service::StartDiagSession => "StartDiagSession"@,
        Service::ECUReset => "ECUReset"@,
        Service::ClearDiagnosticInformation => "ClearDiagnosticInformation"@,
        Service::ReadDTCStatus => "ReadDTCStatus"@,
        Service::ReadDTCByStatus => "ReadDTCByStatus"@,
        Service::ReadECUID => "ReadECUID"@,
        Service::ReadDataByLocalID => "ReadDataByLocalID"@,
        Service::ReadDataByID => "ReadDataByID"@,
        Service::ReadMemoryByAddress => "ReadMemoryByAddress"@,
        Service::SecurityAccess => "SecurityAccess"@,
        Service::DisableNormalMsgTransmission => "DisableNormalMsgTransmission"@,
        Service::EnableNormalMsgTransmission => "EnableNormalMsgTransmission"@,
        Service::DynamicallyDefineLocalID => "DynamicallyDefineLocalID"@,
        Service::WriteDataByID => "WriteDataByID"@,
        Service::IOCTLByLocalID => "IOCTLByLocalID"@,
        Service::StartRoutineByLocalID => "StartRoutineByLocalID"@,
        Service::StopRoutineByLocalID => "StopRoutineByLocalID"@,
        Service::RequestRoutineResultsByLocalID => "RequestRoutineResultsByLocalID"@,
        Service::RequestDownload => "RequestDownload"@,
        Service::RequestUpload => "RequestUpload"@,
        Service::TransferData => "TransferData"@,
        Service::RequestTransferExit => "RequestTransferExit"@,
        Service::WriteDataByLocalID => "WriteDataByLocalID"@,
        Service::WriteMemoryByAddress => "WriteMemoryByAddress"@,
        Service::TesterPresent => "TesterPresent"@,
        Service::ControlDTCSettings => "ControlDTCSettings"@,
        Service::ResponseOnEvent => "ResponseOnEvent"@,
        Service::SupplierCustom(x) => "SupplierCustom("@ + decimal(x as nat) + ")"@,
    }
}

/// How risky a service is.
pub open spec fn service_caution(s: Service) -> CautionLevel {
    match s {
        Service::StartDiagSession => CautionLevel::Harmless,
        Service::ECUReset => CautionLevel::Warn,
        Service::ClearDiagnosticInformation => CautionLevel::Harmless,
        Service::ReadDTCStatus => CautionLevel::Harmless,
        Service::ReadDTCByStatus => CautionLevel::Harmless,
        Service::ReadECUID => CautionLevel::Harmless,
        Service::ReadDataByLocalID => CautionLevel::Alert,
        Service::ReadDataByID => CautionLevel::Alert,
        Service::ReadMemoryByAddress => CautionLevel::Alert,
        Service::SecurityAccess => CautionLevel::Warn,
        Service::DisableNormalMsgTransmission => CautionLevel::Alert,
        Service::EnableNormalMsgTransmission => CautionLevel::Alert,
        Service::DynamicallyDefineLocalID => CautionLevel::Alert,
        Service::WriteDataByID => CautionLevel::Alert,
        Service::IOCTLByLocalID => CautionLevel::Alert,
        Service::StartRoutineByLocalID => CautionLevel::Alert,
        Service::StopRoutineByLocalID => CautionLevel::Alert,
        Service::RequestRoutineResultsByLocalID => CautionLevel::Alert,
        Service::RequestDownload => CautionLevel::Alert,
        Service::RequestUpload => CautionLevel::Alert,
        Service::TransferData => CautionLevel::Alert,
        Service::RequestTransferExit => CautionLevel::Alert,
        Service::WriteDataByLocalID => CautionLevel::Alert,
        Service::WriteMemoryByAddress => CautionLevel::Alert,
        Service::TesterPresent => CautionLevel::Harmless,
        Service::ControlDTCSettings => CautionLevel::Warn,
        Service::ResponseOnEvent => CautionLevel::Warn,
        Service::SupplierCustom(_) => CautionLevel::Warn,
    }
}

/// The services offered for a user to run (all but session control and tester present).
pub open spec fn service_list() -> Seq<Service> {
    seq![
        Service::ECUReset,
        Service::ClearDiagnosticInformation,
        Service::ReadDTCStatus,
        Service::ReadDTCByStatus,
        Service::ReadECUID,
        Service::ReadDataByLocalID,
        Service::ReadDataByID,
        Service::ReadMemoryByAddress,
        Service::SecurityAccess,
        Service::DisableNormalMsgTransmission,
        Service::EnableNormalMsgTransmission,
        Service::DynamicallyDefineLocalID,
        Service::WriteDataByID,
        Service::IOCTLByLocalID,
        Service::StartRoutineByLocalID,
        Service::StopRoutineByLocalID,
        Service::RequestRoutineResultsByLocalID,
        Service::RequestDownload,
        Service::RequestUpload,
        Service::TransferData,
        Service::RequestTransferExit,
        Service::WriteDataByLocalID,
        Service::WriteMemoryByAddress,
        Service::ControlDTCSettings,
        Service::ResponseOnEvent
    ]
}

impl Service {
    /// The service identifier byte.
    pub fn to_byte(&self) -> (r: u8)
        ensures
            r == service_byte(*self),
    {
        match self {
            Service::StartDiagSession => 0x10,
            Service::ECUReset => 0x11,
            Service::ClearDiagnosticInformation => 0x14,
            Service::ReadDTCStatus => 0x17,
            Service::ReadDTCByStatus => 0x18,
            Service::ReadECUID => 0x1A,
            Service::ReadDataByLocalID => 0x21,
            Service::ReadDataByID => 0x22,
            Service::ReadMemoryByAddress => 0x23,
            Service::SecurityAccess => 0x27,
            Service::DisableNormalMsgTransmission => 0x28,
            Service::EnableNormalMsgTransmission => 0x29,
            Service::DynamicallyDefineLocalID => 0x2C,
            Service::WriteDataByID => 0x2E,
            Service::IOCTLByLocalID => 0x30,
            Service::StartRoutineByLocalID => 0x31,
            Service::StopRoutineByLocalID => 0x32,
            Service::RequestRoutineResultsByLocalID => 0x33,
            Service::RequestDownload => 0x34,
            Service::RequestUpload => 0x35,
            Service::TransferData => 0x36,
            Service::RequestTransferExit => 0x37,
            Service::WriteDataByLocalID => 0x3B,
            Service::WriteMemoryByAddress => 0x3D,
            Service::TesterPresent => 0x3E,
            Service::ControlDTCSettings => 0x85,
            Service::ResponseOnEvent => 0x86,
            Service::SupplierCustom(sid) => *sid,
        }
    }

    /// The services a user can pick from, in menu order.
    pub fn to_vec() -> (r: Vec<Service>)
        ensures
            r@ == service_list(),
    {
        let mut r: Vec<Service> = Vec::new();
        r.push(Service::ECUReset);
        r.push(Service::ClearDiagnosticInformation);
        r.push(Service::ReadDTCStatus);
        r.push(Service::ReadDTCByStatus);
        r.push(Service::ReadECUID);
        r.push(Service::ReadDataByLocalID);
        r.push(Service::ReadDataByID);
        r.push(Service::ReadMemoryByAddress);
        r.push(Service::SecurityAccess);
        r.push(Service::DisableNormalMsgTransmission);
        r.push(Service::EnableNormalMsgTransmission);
        r.push(Service::DynamicallyDefineLocalID);
        r.push(Service::WriteDataByID);
        r.push(Service::IOCTLByLocalID);
        r.push(Service::StartRoutineByLocalID);
        r.push(Service::StopRoutineByLocalID);
        r.push(Service::RequestRoutineResultsByLocalID);
        r.push(Service::RequestDownload);
        r.push(Service::RequestUpload);
        r.push(Service::TransferData);
        r.push(Service::RequestTransferExit);
        r.push(Service::WriteDataByLocalID);
        r.push(Service::WriteMemoryByAddress);
        r.push(Service::ControlDTCSettings);
        r.push(Service::ResponseOnEvent);
        assert(r@ =~= service_list());
        r
    }

    /// The name of the service.
    pub fn to_string(&self) -> (r: String)
        ensures
            r@ == service_name(*self),
    {
        self.get_name()
    }
}

impl Selectable for Service {
    fn get_name(&self) -> (r: String)
        ensures
            r@ == service_name(*self),
    {
        let t: &str = match self {
            Service::StartDiagSession => "StartDiagSession",
            Service::ECUReset => "ECUReset",
            Service::ClearDiagnosticInformation => "ClearDiagnosticInformation",
            Service::ReadDTCStatus => "ReadDTCStatus",
            Service::ReadDTCByStatus => "ReadDTCByStatus",
            Service::ReadECUID => "ReadECUID",
            Service::ReadDataByLocalID => "ReadDataByLocalID",
            Service::ReadDataByID => "ReadDataByID",
            Service::ReadMemoryByAddress => "ReadMemoryByAddress",
            Service::SecurityAccess => "SecurityAccess",
            Service::DisableNormalMsgTransmission => "DisableNormalMsgTransmission",
            Service::EnableNormalMsgTransmission => "EnableNormalMsgTransmission",
            Service::DynamicallyDefineLocalID => "DynamicallyDefineLocalID",
            Service::WriteDataByID => "WriteDataByID",
            Service::IOCTLByLocalID => "IOCTLByLocalID",
            Service::StartRoutineByLocalID => "StartRoutineByLocalID",
            Service::StopRoutineByLocalID => "StopRoutineByLocalID",
            Service::RequestRoutineResultsByLocalID => "RequestRoutineResultsByLocalID",
            Service::RequestDownload => "RequestDownload",
            Service::RequestUpload => "RequestUpload",
            Service::TransferData => "TransferData",
            Service::RequestTransferExit => "RequestTransferExit",
            Service::WriteDataByLocalID => "WriteDataByLocalID",
            Service::WriteMemoryByAddress => "WriteMemoryByAddress",
            Service::TesterPresent => "TesterPresent",
            Service::ControlDTCSettings => "ControlDTCSettings",
            Service::ResponseOnEvent => "ResponseOnEvent",
            Service::SupplierCustom(x) => {
                let mut s = String::new();
                proof { reveal_strlit("SupplierCustom("); reveal_strlit(")"); }
                push_str(&mut s, "SupplierCustom(");
                push_decimal(&mut s, *x as u64);
                push_str(&mut s, ")");
                return s;
            },
        };
        String::from_str(t)
    }

    fn get_desc(&self) -> (r: String)
        ensures
            r@ == service_desc(*self),
    {
        let t: &str = match self {
            Service::StartDiagSession => "Start diagnostic session",
            Service::ECUReset => "Reset ECU",
            Service::ClearDiagnosticInformation => "Clear diagnostic information",
            Service::ReadDTCStatus => "Read diagnostic trouble status",
            Service::ReadDTCByStatus => "Read diagnostic trouble codes by status",
            Service::ReadECUID => "Read ECU Identification data",
            Service::ReadDataByLocalID => "Read data by local ID",
            Service::ReadDataByID => "Read data by ID",
            Service::ReadMemoryByAddress => "Read memory by address",
            Service::SecurityAccess => "Security access",
            Service::DisableNormalMsgTransmission => "Disable normal message transmission",
            Service::EnableNormalMsgTransmission => "Enable normal message transmission",
            Service::DynamicallyDefineLocalID => "Dynamically define local ID",
            Service::WriteDataByID => "Write data by ID",
            Service::IOCTLByLocalID => "IOCTL by local ID",
            Service::StartRoutineByLocalID => "Start routine by local ID",
            Service::StopRoutineByLocalID => "Stop routine by local ID",
            Service::RequestRoutineResultsByLocalID => "Request routine results by local ID",
            Service::RequestDownload => "Request download",
            Service::RequestUpload => "Request upload",
            Service::TransferData => "Transfer data",
            Service::RequestTransferExit => "Request transfer exit",
            Service::WriteDataByLocalID => "Write data by local ID",
            Service::WriteMemoryByAddress => "Write memory by address",
            Service::TesterPresent => "Tester present",
            Service::ControlDTCSettings => "Control DTC Settings",
            Service::ResponseOnEvent => "Response on event",
            Service::SupplierCustom(x) => {
                let mut s = String::new();
                proof { reveal_strlit("Custom("); reveal_strlit(")"); }
                push_str(&mut s, "Custom(");
                push_hex2(&mut s, *x);
                push_str(&mut s, ")");
                return s;
            },
        };
        String::from_str(t)
    }
}

impl ECUCommand for Service {
    fn get_caution_level(&self) -> (r: CautionLevel)
        ensures
            r == service_caution(*self),
    {
        match self {
            Service::StartDiagSession => CautionLevel::Harmless,
            Service::ECUReset => CautionLevel::Warn,
            Service::ClearDiagnosticInformation => CautionLevel::Harmless,
            Service::ReadDTCStatus => CautionLevel::Harmless,
            Service::ReadDTCByStatus => CautionLevel::Harmless,
            Service::ReadECUID => CautionLevel::Harmless,
            Service::ReadDataByLocalID => CautionLevel::Alert,
            Service::ReadDataByID => CautionLevel::Alert,
            Service::ReadMemoryByAddress => CautionLevel::Alert,
            Service::SecurityAccess => CautionLevel::Warn,
            Service::DisableNormalMsgTransmission => CautionLevel::Alert,
            Service::EnableNormalMsgTransmission => CautionLevel::Alert,
            Service::DynamicallyDefineLocalID => CautionLevel::Alert,
            Service::WriteDataByID => CautionLevel::Alert,
            Service::IOCTLByLocalID => CautionLevel::Alert,
            Service::StartRoutineByLocalID => CautionLevel::Alert,
            Service::StopRoutineByLocalID => CautionLevel::Alert,
            Service::RequestRoutineResultsByLocalID => CautionLevel::Alert,
            Service::RequestDownload => CautionLevel::Alert,
            Service::RequestUpload => CautionLevel::Alert,
            Service::TransferData => CautionLevel::Alert,
            Service::RequestTransferExit => CautionLevel::Alert,
            Service::WriteDataByLocalID => CautionLevel::Alert,
            Service::WriteMemoryByAddress => CautionLevel::Alert,
            Service::TesterPresent => CautionLevel::Harmless,
            Service::ControlDTCSettings => CautionLevel::Warn,
            Service::ResponseOnEvent => CautionLevel::Warn,
            Service::SupplierCustom(_) => CautionLevel::Warn,
        }
    }

    fn get_cmd_list() -> (r: Vec<Self>)
        ensures
            r@ == service_list(),
    {
        Service::to_vec()
    }
}

/// A KWP2000 diagnostic session.
#[derive(Debug, Copy, Clone, PartialEq, Eq, Structural)]
pub enum DiagSession {
    Normal,
    ECUFlash,
    StandBy,
    ECUPassive,
    ExtendedDiag,
}

/// The byte that requests a session.
pub open spec fn diag_session_byte(s: DiagSession) -> u8 {
    match s {
        DiagSession::Normal => 0x81,
        DiagSession::ECUFlash => 0x85,
        DiagSession::StandBy => 0x89,
        DiagSession::ECUPassive => 0x90,
        DiagSession::ExtendedDiag => 0x92,
    }
}

impl DiagSession {
    /// The byte that requests the session.
    pub fn to_byte(&self) -> (r: u8)
        ensures
            r == diag_session_byte(*self),
    {
        match self {
            DiagSession::Normal => 0x81,
            DiagSession::ECUFlash => 0x85,
            DiagSession::StandBy => 0x89,
            DiagSession::ECUPassive => 0x90,
            DiagSession::ExtendedDiag => 0x92,
        }
    }

    /// Every session but the normal one must be kept alive with tester-present messages.
    pub fn send_tester_present(&self) -> (r: bool)
        ensures
            r == (*self != DiagSession::Normal),
    {
        *self != DiagSession::Normal
    }
}

/// A KWP2000 negative response code.
#[derive(Debug, Copy, Clone, PartialEq, Eq, Structural)]
pub enum NegativeResponse {
    GeneralReject,
    ServiceNotSupported,
    SubFunctionNotSupported,
    Busy,
    RequestSequenceError,
    RoutineNotComplete,
    RequestOutOfRange,
    InvalidKey,
    ExceededAttempts,
    TimeDelayNotExpired,
    DownloadNotAccepted,
    UploadNotAccepted,
    TransferSuspended,
    DataDecompressionFailed,
    DataDecryptionFailed,
    ECUNotResponding,
    ECUAddressUnknown,
    SecurityAccessDenied,
    ResponsePending,
    ServiceNotSupportedActiveSession,
    CustomDaimler(u8),
    Reserved(u8),
    Unknown(u8),
}

/// The negative response that a code byte stands for.
pub open spec fn kwp_negative_from_byte(b: u8) -> NegativeResponse {
    if b == 0x10 { NegativeResponse::GeneralReject }
    else if b == 0x11 { NegativeResponse::ServiceNotSupported }
    else if b == 0x12 { NegativeResponse::SubFunctionNotSupported }
    else if b == 0x21 { NegativeResponse::Busy }
    else if b == 0x22 { NegativeResponse::RequestSequenceError }
    else if b == 0x23 { NegativeResponse::RoutineNotComplete }
    else if b == 0x31 { NegativeResponse::RequestOutOfRange }
    else if b == 0x33 { NegativeResponse::SecurityAccessDenied }
    else if b == 0x35 { NegativeResponse::InvalidKey }
    else if b == 0x36 { NegativeResponse::ExceededAttempts }
    else if b == 0x37 { NegativeResponse::TimeDelayNotExpired }
    else if b == 0x40 { NegativeResponse::DownloadNotAccepted }
    else if b == 0x50 { NegativeResponse::UploadNotAccepted }
    else if b == 0x71 { NegativeResponse::TransferSuspended }
    else if b == 0x78 { NegativeResponse::ResponsePending }
    else if b == 0x80 { NegativeResponse::ServiceNotSupportedActiveSession }
    else if b == 0x9A { NegativeResponse::DataDecompressionFailed }
    else if b == 0x9B { NegativeResponse::DataDecryptionFailed }
    else if b == 0xA0 { NegativeResponse::ECUNotResponding }
    else if b == 0xA1 { NegativeResponse::ECUAddressUnknown }
    else if 0x81 <= b <= 0x8F { NegativeResponse::Reserved(b) }
    else if 0x90 <= b <= 0x99 { NegativeResponse::CustomDaimler(b) }
    else if 0xA2 <= b <= 0xF9 { NegativeResponse::CustomDaimler(b) }
    else if b == 0xFF { NegativeResponse::Reserved(0xFF) }
    else { NegativeResponse::Unknown(b) }
}

/// The description of a negative response.
pub open spec fn kwp_negative_desc(n: NegativeResponse) -> Seq<char> {
    match n {
        NegativeResponse::GeneralReject => "General reject"@,
        NegativeResponse::ServiceNotSupported => "Service is not supported"@,
        NegativeResponse::SubFunctionNotSupported => "Sub function not supported / invalid format"@,
        NegativeResponse::Busy => "ECU is currently busy performing another operation"@,
        NegativeResponse::RequestSequenceError => "Conditions are not correct or Request sequence error"@,
        NegativeResponse::RoutineNotComplete => "Routine is not yet completed"@,
        NegativeResponse::RequestOutOfRange => "The request is out of range"@,
        NegativeResponse::InvalidKey => "Invalid security key"@,
        NegativeResponse::ExceededAttempts => "Exceeded number of security access attempts"@,
        NegativeResponse::TimeDelayNotExpired => "The required time day has not yet expired"@,
        NegativeResponse::DownloadNotAccepted => "Download not accepted"@,
        NegativeResponse::UploadNotAccepted => "Upload not accepted"@,
        NegativeResponse::TransferSuspended => "Data transfer suspended"@,
        NegativeResponse::DataDecompressionFailed => "Data decompression failed"@,
        NegativeResponse::DataDecryptionFailed => "Data decryption failed"@,
        NegativeResponse::ECUNotResponding => "According to the gateway, the ECU is not responding"@,
        NegativeResponse::ECUAddressUnknown => "The gateway does not know what ECU address this is"@,
        NegativeResponse::SecurityAccessDenied => "Security access for this function was denied"@,
        NegativeResponse::ResponsePending => "Response pending..."@,
        NegativeResponse::ServiceNotSupportedActiveSession => "This services is not supported in the current diagnostic session"@,
        NegativeResponse::CustomDaimler(x) => "Custom DaimlerChrysler DCX code 0x"@ + hex2(x),
        NegativeResponse::Reserved(x) => "ISO 14230 Reserved code 0x"@ + hex2(x),
        NegativeResponse::Unknown(x) => "Unknown error 0x"@ + hex2(x),
    }
}

/// The help text of a negative response, where there is one.
pub open spec fn kwp_negative_help(n: NegativeResponse) -> Option<Seq<char>> {
    match n {
        NegativeResponse::GeneralReject => None,
        NegativeResponse::ServiceNotSupported => Some("This service is not supported by the ECU"@),
        NegativeResponse::SubFunctionNotSupported => Some("The arguments provided in the command may not be correct"@),
        NegativeResponse::Busy => Some("The ECU is currently performing another operation, please wait"@),
        NegativeResponse::RequestSequenceError => Some("The ECU requires something to be ran prior to running this command"@),
        NegativeResponse::RoutineNotComplete => Some("The diagnostic routine was not completed"@),
        NegativeResponse::RequestOutOfRange => Some("The data entered exceeded the maximum value that the ECU can read or store"@),
        NegativeResponse::InvalidKey => Some("The wrong seed-key was entered to gain a higher security clearance"@),
        NegativeResponse::ExceededAttempts => Some("You have exceeded the number of attempts to gain a higher security clearance"@),
        NegativeResponse::TimeDelayNotExpired => Some("You have entered a seed-key response too quickly. Please wait."@),
        NegativeResponse::DownloadNotAccepted => None,
        NegativeResponse::UploadNotAccepted => None,
        NegativeResponse::TransferSuspended => Some("The data transfer was suspended due to an unknown fault"@),
        NegativeResponse::DataDecompressionFailed => None,
        NegativeResponse::DataDecryptionFailed => None,
        NegativeResponse::ECUNotResponding => Some("In your car, the gateway talks to the ECU directly and has detected that the ECU has stopped responding"@),
        NegativeResponse::ECUAddressUnknown => Some("In your car, the gateway is trying to talk to the ECU you requested, but you entered an unknown address"@),
        NegativeResponse::SecurityAccessDenied => Some("In order to execute this function, you need to obtain a higher security clearance."@),
        NegativeResponse::ResponsePending => Some("The ECU is currently trying to send a response"@),
        NegativeResponse::ServiceNotSupportedActiveSession => Some("This function is not supported in the current diagnostic session. Try to switch diagnostic sessions"@),
        NegativeResponse::CustomDaimler(_) => Some("This error code is reserved by DaimlerChrysler. Therefore its meaning is unknown"@),
        NegativeResponse::Reserved(_) => None,
        NegativeResponse::Unknown(_) => None,
    }
}

impl CommandError for NegativeResponse {
    fn get_desc(&self) -> (r: String)
        ensures
            r@ == kwp_negative_desc(*self),
    {
        let (prefix, x): (&str, u8) = match self {
            NegativeResponse::GeneralReject => return String::from_str("General reject"),
            NegativeResponse::ServiceNotSupported => return String::from_str("Service is not supported"),
            NegativeResponse::SubFunctionNotSupported => return String::from_str("Sub function not supported / invalid format"),
            NegativeResponse::Busy => return String::from_str("ECU is currently busy performing another operation"),
            NegativeResponse::RequestSequenceError => return String::from_str("Conditions are not correct or Request sequence error"),
            NegativeResponse::RoutineNotComplete => return String::from_str("Routine is not yet completed"),
            NegativeResponse::RequestOutOfRange => return String::from_str("The request is out of range"),
            NegativeResponse::InvalidKey => return String::from_str("Invalid security key"),
            NegativeResponse::ExceededAttempts => return String::from_str("Exceeded number of security access attempts"),
            NegativeResponse::TimeDelayNotExpired => return String::from_str("The required time day has not yet expired"),
            NegativeResponse::DownloadNotAccepted => return String::from_str("Download not accepted"),
            NegativeResponse::UploadNotAccepted => return String::from_str("Upload not accepted"),
            NegativeResponse::TransferSuspended => return String::from_str("Data transfer suspended"),
            NegativeResponse::DataDecompressionFailed => return String::from_str("Data decompression failed"),
            NegativeResponse::DataDecryptionFailed => return String::from_str("Data decryption failed"),
            NegativeResponse::ECUNotResponding => return String::from_str("According to the gateway, the ECU is not responding"),
            NegativeResponse::ECUAddressUnknown => return String::from_str("The gateway does not know what ECU address this is"),
            NegativeResponse::SecurityAccessDenied => return String::from_str("Security access for this function was denied"),
            NegativeResponse::ResponsePending => return String::from_str("Response pending..."),
            NegativeResponse::ServiceNotSupportedActiveSession => return String::from_str("This services is not supported in the current diagnostic session"),
            NegativeResponse::CustomDaimler(x) => ("Custom DaimlerChrysler DCX code 0x", *x),
            NegativeResponse::Reserved(x) => ("ISO 14230 Reserved code 0x", *x),
            NegativeResponse::Unknown(x) => ("Unknown error 0x", *x),
        };
        let mut s = String::new();
        push_str(&mut s, prefix);
        push_hex2(&mut s, x);
        s
    }

    /// A help message for the user, where there is one.
    fn get_help(&self) -> (r: Option<String>)
        ensures
            match (r, kwp_negative_help(*self)) {
                (Some(s), Some(t)) => s@ == t,
                (None, None) => true,
                _ => false,
            },
    {
        let t: &str = match self {
            NegativeResponse::GeneralReject => return None,
            NegativeResponse::ServiceNotSupported => "This service is not supported by the ECU",
            NegativeResponse::SubFunctionNotSupported => "The arguments provided in the command may not be correct",
            NegativeResponse::Busy => "The ECU is currently performing another operation, please wait",
            NegativeResponse::RequestSequenceError => "The ECU requires something to be ran prior to running this command",
            NegativeResponse::RoutineNotComplete => "The diagnostic routine was not completed",
            NegativeResponse::RequestOutOfRange => "The data entered exceeded the maximum value that the ECU can read or store",
            NegativeResponse::InvalidKey => "The wrong seed-key was entered to gain a higher security clearance",
            NegativeResponse::ExceededAttempts => "You have exceeded the number of attempts to gain a higher security clearance",
            NegativeResponse::TimeDelayNotExpired => "You have entered a seed-key response too quickly. Please wait.",
            NegativeResponse::DownloadNotAccepted => return None,
            NegativeResponse::UploadNotAccepted => return None,
            NegativeResponse::TransferSuspended => "The data transfer was suspended due to an unknown fault",
            NegativeResponse::DataDecompressionFailed => return None,
            NegativeResponse::DataDecryptionFailed => return None,
            NegativeResponse::ECUNotResponding => "In your car, the gateway talks to the ECU directly and has detected that the ECU has stopped responding",
            NegativeResponse::ECUAddressUnknown => "In your car, the gateway is trying to talk to the ECU you requested, but you entered an unknown address",
            NegativeResponse::SecurityAccessDenied => "In order to execute this function, you need to obtain a higher security clearance.",
            NegativeResponse::ResponsePending => "The ECU is currently trying to send a response",
            NegativeResponse::ServiceNotSupportedActiveSession => "This function is not supported in the current diagnostic session. Try to switch diagnostic sessions",
            NegativeResponse::CustomDaimler(_) => "This error code is reserved by DaimlerChrysler. Therefore its meaning is unknown",
            NegativeResponse::Reserved(_) => return None,
            NegativeResponse::Unknown(_) => return None,
        };
        Some(String::from_str(t))
    }

    fn from_byte(b: u8) -> (r: Self)
        ensures
            r == kwp_negative_from_byte(b),
    {
        match b {
            0x10 => NegativeResponse::GeneralReject,
            0x11 => NegativeResponse::ServiceNotSupported,
            0x12 => NegativeResponse::SubFunctionNotSupported,
            0x21 => NegativeResponse::Busy,
            0x22 => NegativeResponse::RequestSequenceError,
            0x23 => NegativeResponse::RoutineNotComplete,
            0x31 => NegativeResponse::RequestOutOfRange,
            0x33 => NegativeResponse::SecurityAccessDenied,
            0x35 => NegativeResponse::InvalidKey,
            0x36 => NegativeResponse::ExceededAttempts,
            0x37 => NegativeResponse::TimeDelayNotExpired,
            0x40 => NegativeResponse::DownloadNotAccepted,
            0x50 => NegativeResponse::UploadNotAccepted,
            0x71 => NegativeResponse::TransferSuspended,
            0x78 => NegativeResponse::ResponsePending,
            0x80 => NegativeResponse::ServiceNotSupportedActiveSession,
            0x9A => NegativeResponse::DataDecompressionFailed,
            0x9B => NegativeResponse::DataDecryptionFailed,
            0xA0 => NegativeResponse::ECUNotResponding,
            0xA1 => NegativeResponse::ECUAddressUnknown,
            0x81..=0x8F => NegativeResponse::Reserved(b),
            0x90..=0x99 => NegativeResponse::CustomDaimler(b),
            0xA2..=0xF9 => NegativeResponse::CustomDaimler(b),
            0xFF => NegativeResponse::Reserved(0xFF),
            _ => NegativeResponse::Unknown(b),
        }
    }
}
/// What an ECU reports about itself.
#[derive(Debug, Clone)]
pub struct ECUIdentification {
    pub part_num: String,
    pub hw_version: String,
    pub sw_version: String,
    pub is_boot_sw: bool,
    pub variant: u32,
}

impl Default for ECUIdentification {
    /// Every text field `Unknown`, not boot software, variant 0.
    fn default() -> (r: Self)
        ensures
            r.part_num@ == "Unknown"@,
            r.hw_version@ == "Unknown"@,
            r.sw_version@ == "Unknown"@,
            !r.is_boot_sw,
            r.variant == 0,
    {
        Self {
            part_num: String::from_str("Unknown"),
            hw_version: String::from_str("Unknown"),
            sw_version: String::from_str("Unknown"),
            is_boot_sw: false,
            variant: 0,
        }
    }
}

/// A binary coded decimal byte as text: the digits of its high nibble, then of its low
/// nibble, so that 0x12 reads `12`.
pub open spec fn bcd_text(b: u8) -> Seq<char> {
    decimal((b / 16) as nat) + decimal((b % 16) as nat)
}

/// The binary coded decimal text of a run of bytes, byte after byte.
pub open spec fn bcd_text_seq(bytes: Seq<u8>) -> Seq<char>
    decreases bytes.len(),
{
    if bytes.len() == 0 {
        Seq::empty()
    } else {
        bcd_text_seq(bytes.drop_last()) + bcd_text(bytes.last())
    }
}

/// Appends the binary coded decimal text of a byte.
pub fn push_bcd(s: &mut String, input: u8)
    ensures
        final(s)@ == old(s)@ + bcd_text(input),
{
    let low = input & 0x0F;
    let high = (input & 0xF0) >> 4;
    assert(low == input % 16 && high == input / 16) by (bit_vector)
        requires low == input & 0x0F, high == (input & 0xF0) >> 4;
    push_decimal(s, high as u64);
    push_decimal(s, low as u64);
}

/// Decodes a binary coded decimal byte (`{high}{low}`).
pub fn bcd_decode(input: u8) -> (r: String)
    ensures
        r@ == bcd_text(input),
{
    let mut s = String::new();
    push_bcd(&mut s, input);
    s
}

/// Decodes a run of binary coded decimal bytes into one text.
pub fn bcd_decode_slice(bytes: &[u8]) -> (r: String)
    ensures
        r@ == bcd_text_seq(bytes@),
{
    let mut s = String::new();
    let mut i: usize = 0;
    while i < bytes.len()
        invariant
            i <= bytes@.len(),
            s@ == bcd_text_seq(bytes@.subrange(0, i as int)),
        decreases bytes@.len() - i,
    {
        push_bcd(&mut s, bytes[i]);
        assert(bytes@.subrange(0, i + 1).drop_last() =~= bytes@.subrange(0, i as int));
        i = i + 1;
    }
    assert(bytes@.subrange(0, bytes@.len() as int) =~= bytes@);
    s
}

/// The state of a KWP2000 trouble code from its status byte: stored when its storage bits
/// (6 and 7) are set, otherwise pending when its present bit (4) is set, otherwise none.
pub open spec fn kwp_dtc_state(status: u8) -> DTCState {
    if (status / 64) % 4 > 0 {
        DTCState::Stored
    } else if (status / 16) % 2 > 0 {
        DTCState::Pending
    } else {
        DTCState::Unset
    }
}

/// The KWP2000 trouble-code reply is complete: a service byte, a count, then three bytes
/// (two of identifier, one of status) per code.
pub open spec fn kwp_dtc_reply_complete(resp: Seq<u8>) -> bool {
    resp.len() >= 2 && resp.len() >= 2 + 3 * resp[1]
}

/// The code at position `k` of a KWP2000 trouble-code reply is decoded from its bytes.
pub open spec fn kwp_dtc_decoded(resp: Seq<u8>, k: int, d: DTC) -> bool {
    let b0 = resp[2 + 3 * k];
    let b1 = resp[3 + 3 * k];
    let status = resp[4 + 3 * k];
    &&& d.error@ == hex2(b0) + hex2(b1)
    &&& d.state == kwp_dtc_state(status)
    &&& d.check_engine_on == (status / 128 > 0)
    &&& d.id == b0 * 256 + b1
}

/// The state of a decoded KWP2000 trouble code follows its status byte: a code with either
/// storage bit (6 or 7) set is stored, whether or not its lamp bit (7) is on, so every
/// status from 0x40 up gives a stored code; below 0x40 the code is pending when bit 4 is
/// set (0x10-0x1F, 0x30-0x3F) and has no state otherwise. The lamp is on exactly for
/// statuses from 0x80 up.
pub proof fn lemma_kwp_dtc_state_by_status(resp: Seq<u8>, k: int, d: DTC)
    requires
        kwp_dtc_decoded(resp, k, d),
    ensures
        resp[4 + 3 * k] >= 0x40 ==> d.state == DTCState::Stored,
        (0x10 <= resp[4 + 3 * k] < 0x20 || 0x30 <= resp[4 + 3 * k] < 0x40) ==> d.state == DTCState::Pending,
        (resp[4 + 3 * k] < 0x10 || 0x20 <= resp[4 + 3 * k] < 0x30) ==> d.state == DTCState::Unset,
        d.check_engine_on == (resp[4 + 3 * k] >= 0x80),
        d.id == resp[2 + 3 * k] * 256 + resp[3 + 3 * k],
{
}

/// Decodes the reply to Read DTC By Status: the count of codes in the second byte, then
/// each code as two identifier bytes (shown as four hex digits) and a status byte whose
/// bit 7 is the check-engine lamp.
pub fn decode_dtcs_by_status(resp: &[u8]) -> (r: Vec<DTC>)
    requires
        kwp_dtc_reply_complete(resp@),
    ensures
        r@.len() == resp@[1],
        forall|k: int| 0 <= k < r@.len() ==> kwp_dtc_decoded(resp@, k, #[trigger] r@[k]),
{
    let count = resp[1] as usize;
    let mut res: Vec<DTC> = Vec::new();
    let mut k: usize = 0;
    while k < count
        invariant
            count == resp@[1],
            kwp_dtc_reply_complete(resp@),
            k <= count,
            res@.len() == k,
            forall|j: int| 0 <= j < k ==> kwp_dtc_decoded(resp@, j, #[trigger] res@[j]),
        decreases count - k,
    {
        let b0 = resp[2 + 3 * k];
        let b1 = resp[3 + 3 * k];
        let status = resp[4 + 3 * k];
        let mut name = String::new();
        push_hex2(&mut name, b0);
        push_hex2(&mut name, b1);
        let flag = (status >> 4 & 0b00000001) > 0;
        let storage_state = (status >> 6) & 0b0000011;
        let mil = (status >> 7 & 0b00000001) > 0;
        assert(flag == ((status / 16) % 2 > 0) && storage_state == (status / 64) % 4 && mil == (status / 128 > 0)) by (bit_vector)
            requires
                flag == ((status >> 4 & 0b00000001) > 0),
                storage_state == (status >> 6) & 0b0000011,
                mil == ((status >> 7 & 0b00000001) > 0);
        let state = if storage_state > 0 {
            DTCState::Stored
        } else if flag {
            DTCState::Pending
        } else {
            DTCState::Unset
        };
        let d = DTC { error: name, state, check_engine_on: mil, id: (b0 as u32) << 8 | b1 as u32 };
        assert(((b0 as u32) << 8 | b1 as u32) == b0 * 256 + b1) by (bit_vector);
        res.push(d);
        k = k + 1;
    }
    res
}

/// Checks a reply relayed by a KWP2000 session: a negative reply becomes the KWP2000
/// error for its code; any other reply is returned unchanged.
pub fn check_reply(resp: Vec<u8>) -> (r: ProtocolResult<Vec<u8>>)
    requires
        reply_readable(resp@),
    ensures
        resp@[0] == 0x7F ==> r == Err::<Vec<u8>, ProtocolError>(ProtocolError::ProtocolError(
            ECUError::KWP2000(kwp_negative_from_byte(resp@[2])))),
        resp@[0] != 0x7F ==> r == Ok::<Vec<u8>, ProtocolError>(resp),
{
    if resp[0] == 0x7F {
        let neg_code = <NegativeResponse as CommandError>::from_byte(resp[2]);
        Err(ProtocolError::ProtocolError(ECUError::KWP2000(neg_code)))
    } else {
        Ok(resp)
    }
}

/// The session an ECU is in after a request to switch to `mode`: the requested mode when
/// the request succeeded, the normal session when it failed.
pub fn session_after_switch(mode: DiagSession, succeeded: bool) -> (r: DiagSession)
    ensures
        r == (if succeeded { mode } else { DiagSession::Normal }),
{
    if succeeded { mode } else { DiagSession::Normal }
}

} // verus!
