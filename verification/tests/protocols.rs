use openvehiclediag::comm_api::{ComServerError, ISO15765Config};
use openvehiclediag::protocols::kwp2000::clear_diag_information::{
    clear_custom_dtc_args, clear_dtc_group_args, DTCGroup,
};
use openvehiclediag::protocols::kwp2000::ecu_reset::ResetType;
use openvehiclediag::protocols::kwp2000::read_ecu_identification::{
    parse_calibration_id, parse_calibration_verification_number, parse_current_vin,
    parse_dcs_id, parse_dcx_mmc_id, parse_fingerprint, parse_original_vin, parse_variant_code,
    u32_be, IdentificationType,
};
use openvehiclediag::protocols::kwp2000::read_status_dtc::read_status_dtc_args;
use openvehiclediag::protocols::kwp2000::{
    bcd_decode, bcd_decode_slice, decode_dtcs_by_status, ECUIdentification, NegativeResponse,
    Service,
};
use openvehiclediag::protocols::kwp2000;
use openvehiclediag::protocols::obd2::service01::{
    get_fuel_status, get_fuel_type, get_obd_standard, get_secondary_air_status,
    pid_descriptions, Service01,
};
use openvehiclediag::protocols::obd2::service03::Service03;
use openvehiclediag::protocols::obd2::service04::Service04;
use openvehiclediag::protocols::obd2::service09::{Service09, Service09Data};
use openvehiclediag::protocols::obd2::{decode_dtc_resp, get_obd_bits, OBDCmd, ObdError, ObdServer};
use openvehiclediag::protocols::uds;
use openvehiclediag::protocols::uds::read_data::{parse_variant_id, read_variant_id_args};
use openvehiclediag::protocols::uds::read_dtc_info::read_dtc_information_args;
use openvehiclediag::protocols::uds::request::{
    classify_reply, UDSProcessError, UDSRequest, UDSResponse,
};
use openvehiclediag::protocols::uds::{UDSCommand, UDSNegativeCode};
use openvehiclediag::protocols::uds::request::UDSCommand as Cmd;
use openvehiclediag::protocols::vin::Vin;
use openvehiclediag::protocols::obd2;
use openvehiclediag::log_view::{report_clear_codes, report_read_codes, LogType, LogView};
use openvehiclediag::hex_input::{obd_service_name, parse_hex_address, parse_hex_payload, sid_supported};
use openvehiclediag::protocols::{server_tick, TESTER_PRESENT_INTERVAL_MS};
use openvehiclediag::protocols::{
    check_session_reply, command_bytes, interpret_iso_tp_reply, is_response_pending,
    negative_code_of, CautionLevel, CommandError, DTCState, DiagProtocol, ECUCommand, ECUError,
    ProtocolError, Selectable, DTC,
};

fn dtc(error: &str, id: u32) -> DTC {
    DTC { error: error.to_string(), state: DTCState::Stored, check_engine_on: true, id }
}

#[test]
fn protocol_error_texts() {
    assert_eq!(ProtocolError::Timeout.get_text(), "Communication timeout");
    assert!(ProtocolError::Timeout.is_timeout());
    assert!(!ProtocolError::CustomError("x".to_string()).is_timeout());
    assert_eq!(ProtocolError::CustomError("oops".to_string()).get_text(), "oops");
    assert_eq!(
        ProtocolError::InvalidResponseSize { expect: 18, actual: 5 }.get_text(),
        "Expected 18 bytes, got 5 bytes"
    );
    let c = ComServerError { err_code: 7, err_desc: "no device".to_string() };
    assert_eq!(ProtocolError::from_com_error(c).get_text(), "Error code 7 (no device)");
    let n = ProtocolError::ProtocolError(ECUError::KWP2000(NegativeResponse::Busy));
    assert_eq!(n.get_text(), "ECU is currently busy performing another operation");
    let o = ProtocolError::ProtocolError(ECUError::OBD(ObdError::CmdNotSupported));
    assert_eq!(o.get_text(), "OBD Command not supported by ECU");
}

#[test]
fn caution_levels_and_names() {
    assert_eq!(CautionLevel::Harmless.value(), 0);
    assert_eq!(CautionLevel::Warn.value(), 1);
    assert_eq!(CautionLevel::Alert.value(), 2);
    assert!(CautionLevel::Harmless < CautionLevel::Alert);
    assert_eq!(DiagProtocol::KWP2000.get_name(), "KWP2000");
    assert_eq!(DiagProtocol::UDS.get_name(), "UDS");
}

#[test]
fn dtc_text() {
    let d = dtc("P0301", 0x0301);
    assert_eq!(d.to_string(), "P0301 - State: Stored, Check engine light on?: true");
    let u = DTC { error: "1234".to_string(), state: DTCState::Unset, check_engine_on: false, id: 0x1234 };
    assert_eq!(u.to_string(), "1234 - State: None, Check engine light on?: false");
}

#[test]
fn negative_replies_by_protocol() {
    assert!(matches!(
        negative_code_of(DiagProtocol::KWP2000, 0x78),
        ECUError::KWP2000(NegativeResponse::ResponsePending)
    ));
    assert!(matches!(
        negative_code_of(DiagProtocol::UDS, 0x31),
        ECUError::UDS(UDSNegativeCode::RequestOutOfRange)
    ));
    assert!(is_response_pending(&[0x7F, 0x1A, 0x78]));
    assert!(!is_response_pending(&[0x7F, 0x1A, 0x31]));
    assert!(!is_response_pending(&[0x5A]));
}

#[test]
fn iso_tp_reply_outcomes() {
    assert_eq!(interpret_iso_tp_reply(DiagProtocol::KWP2000, 0x1A, vec![0x5A, 0x87]).unwrap(), vec![0x5A, 0x87]);
    assert!(interpret_iso_tp_reply(DiagProtocol::KWP2000, 0x1A, vec![0x50]).unwrap_err().is_timeout());
    let e = interpret_iso_tp_reply(DiagProtocol::UDS, 0x22, vec![0x7F, 0x22, 0x13]).unwrap_err();
    assert!(matches!(e, ProtocolError::ProtocolError(ECUError::UDS(UDSNegativeCode::IncorrectMessageLength))));
    let e = check_session_reply(DiagProtocol::KWP2000, vec![0x7F, 0x10, 0x12]).unwrap_err();
    assert!(matches!(e, ProtocolError::ProtocolError(ECUError::KWP2000(NegativeResponse::SubFunctionNotSupported))));
    assert_eq!(check_session_reply(DiagProtocol::UDS, vec![0x50, 0x03]).unwrap(), vec![0x50, 0x03]);
    assert_eq!(command_bytes(0x1A, &[0x87]), vec![0x1A, 0x87]);
    assert_eq!(command_bytes(0x3E, &[]), vec![0x3E]);
}

#[test]
fn kwp_services() {
    assert_eq!(Service::ReadECUID.to_byte(), 0x1A);
    assert_eq!(Service::TesterPresent.to_byte(), 0x3E);
    assert_eq!(Service::SupplierCustom(0xA5).to_byte(), 0xA5);
    assert_eq!(Service::ReadECUID.to_string(), "ReadECUID");
    assert_eq!(Service::SupplierCustom(12).get_name(), "SupplierCustom(12)");
    assert_eq!(Service::ECUReset.get_desc(), "Reset ECU");
    assert_eq!(Service::ReadDTCByStatus.get_caution_level(), CautionLevel::Harmless);
    let all = Service::to_vec();
    assert_eq!(all.len(), 25);
    assert_eq!(all[0], Service::ECUReset);
    assert_eq!(<Service as ECUCommand>::get_cmd_list(), all);
}

#[test]
fn kwp_sessions() {
    assert_eq!(kwp2000::DiagSession::Normal.to_byte(), 0x81);
    assert_eq!(kwp2000::DiagSession::ExtendedDiag.to_byte(), 0x92);
    assert!(!kwp2000::DiagSession::Normal.send_tester_present());
    assert!(kwp2000::DiagSession::ExtendedDiag.send_tester_present());
    assert_eq!(
        kwp2000::session_after_switch(kwp2000::DiagSession::ECUFlash, true),
        kwp2000::DiagSession::ECUFlash
    );
    assert_eq!(
        kwp2000::session_after_switch(kwp2000::DiagSession::ECUFlash, false),
        kwp2000::DiagSession::Normal
    );
    assert_eq!(kwp2000::start_diag_session::DiagSession::Extended.to_byte(), 0x92);
    assert_eq!(ResetType::PowerOnReset.to_byte(), 0x01);
}

#[test]
fn kwp_negative_responses() {
    let n = <NegativeResponse as CommandError>::from_byte(0x33);
    assert_eq!(n, NegativeResponse::SecurityAccessDenied);
    assert_eq!(n.get_desc(), "Security access for this function was denied");
    assert_eq!(
        <NegativeResponse as CommandError>::from_byte(0x95).get_desc(),
        "Custom DaimlerChrysler DCX code 0x95"
    );
    assert_eq!(<NegativeResponse as CommandError>::from_byte(0x85), NegativeResponse::Reserved(0x85));
    assert_eq!(<NegativeResponse as CommandError>::from_byte(0x01), NegativeResponse::Unknown(0x01));
    assert_eq!(NegativeResponse::GeneralReject.get_help(), None);
    assert_eq!(
        NegativeResponse::ResponsePending.get_help(),
        Some("The ECU is currently trying to send a response".to_string())
    );
    let e = kwp2000::check_reply(vec![0x7F, 0x1A, 0x11]).unwrap_err();
    assert!(matches!(e, ProtocolError::ProtocolError(ECUError::KWP2000(NegativeResponse::ServiceNotSupported))));
    assert_eq!(kwp2000::check_reply(vec![0x5A, 0x86]).unwrap(), vec![0x5A, 0x86]);
}

#[test]
fn bcd_values() {
    assert_eq!(bcd_decode(0x21), "21");
    assert_eq!(bcd_decode(0x12), "12");
    assert_eq!(bcd_decode(0x09), "09");
    assert_eq!(bcd_decode_slice(&[0x21, 0x43]), "2143");
    assert_eq!(bcd_decode_slice(&[]), "");
    let d = ECUIdentification::default();
    assert_eq!(d.part_num, "Unknown");
    assert_eq!(d.variant, 0);
    assert!(!d.is_boot_sw);
}

#[test]
fn kwp_trouble_codes() {
    let resp = [0x58, 0x02, 0x01, 0x23, 0xE0, 0x04, 0x56, 0x10];
    let codes = decode_dtcs_by_status(&resp);
    assert_eq!(codes.len(), 2);
    assert_eq!(codes[0].error, "0123");
    assert_eq!(codes[0].state, DTCState::Stored);
    assert!(codes[0].check_engine_on);
    assert_eq!(codes[0].id, 0x0123);
    assert_eq!(codes[1].error, "0456");
    assert_eq!(codes[1].state, DTCState::Pending);
    assert!(!codes[1].check_engine_on);
    assert!(decode_dtcs_by_status(&[0x58, 0x00]).is_empty());
    assert_eq!(read_status_dtc_args(&dtc("P0123", 0x0123)), [0x01, 0x23]);
}

#[test]
fn kwp_clear_arguments() {
    assert_eq!(DTCGroup::All.value(), 0xFF00);
    assert_eq!(clear_dtc_group_args(DTCGroup::All), [0xFF, 0x00]);
    assert_eq!(clear_custom_dtc_args(0x1234), [0x12, 0x34]);
}

#[test]
fn kwp_identification() {
    assert_eq!(IdentificationType::DcxMmcEcuIdentification.to_byte(), 0x87);
    assert_eq!(u32_be(&[0, 0x12, 0x34, 0x56, 0x78], 1), 0x1234_5678);
    let dcs = [0x5A, 0x86, 0x12, 0x34, 0x56, 0x78, 0x90, 0x10, 0x20, 0x11, 0x21, 0x05, 0x01, 0x02, 0x00, 0x20, 0x12, 0x03];
    let id = parse_dcs_id(&dcs).unwrap();
    assert_eq!(id.part_number, "1234567890");
    assert_eq!(id.hardware_build_date, "10/20");
    assert_eq!(id.software_written_date, "11/21");
    assert_eq!(id.supplier_id, 0x05);
    assert_eq!(id.diag_information, 0x0102);
    assert_eq!(id.production_date, "03/12/20");
    assert!(matches!(
        parse_dcs_id(&dcs[0..10]),
        Err(ProtocolError::InvalidResponseSize { expect: 18, actual: 10 })
    ));
    let mut dcx = vec![0x5A, 0x87, 0x03, 0x04, 0x00, 0x42, 0x00, 0x21, 0x43, 0x01, 0x02, 0x03];
    dcx.extend_from_slice(b"A123456789");
    let id = parse_dcx_mmc_id(&dcx).unwrap();
    assert_eq!(id.ecu_origin, 3);
    assert_eq!(id.supplier_id, 4);
    assert_eq!(id.diag_information, 0x42);
    assert_eq!(id.hardware_version, "2143");
    assert_eq!(id.software_version, "010203");
    assert_eq!(id.part_number, "A123456789");
    dcx[12] = 0xFF;
    assert_eq!(parse_dcx_mmc_id(&dcx).unwrap().part_number, "Unknown");
    assert!(matches!(
        parse_dcx_mmc_id(&dcx[0..5]),
        Err(ProtocolError::InvalidResponseSize { expect: 22, actual: 5 })
    ));
}

#[test]
fn kwp_identification_texts() {
    let mut vin = vec![0x5A, 0x88];
    vin.extend_from_slice(b"WDB12345678901234");
    assert_eq!(parse_original_vin(&vin).unwrap(), "WDB12345678901234");
    assert_eq!(parse_current_vin(&vin).unwrap(), "WDB12345678901234");
    assert!(matches!(
        parse_original_vin(&vin[0..4]),
        Err(ProtocolError::InvalidResponseSize { expect: 19, actual: 4 })
    ));
    assert!(matches!(
        parse_calibration_id(&vin[0..4]),
        Err(ProtocolError::InvalidResponseSize { expect: 18, actual: 4 })
    ));
    let mut cal = vec![0x5A, 0x92];
    cal.extend_from_slice(b"CAL0000000000001");
    assert_eq!(parse_calibration_id(&cal).unwrap(), "CAL0000000000001");
    assert_eq!(parse_variant_code(&[0x5A, 0x8A, 0x00, 0x00, 0x01, 0x02]).unwrap(), 0x0102);
    assert!(matches!(
        parse_variant_code(&[0x5A]),
        Err(ProtocolError::InvalidResponseSize { expect: 6, actual: 1 })
    ));
    assert_eq!(
        parse_calibration_verification_number(&[0x5A, 0x96, 1, 2, 3, 4]).unwrap(),
        [1, 2, 3, 4]
    );
}

#[test]
fn kwp_fingerprint() {
    let res = [0x5A, 0x80, 0x01, 0x05, 0x12, 0x34, 0x56, 0xAA, 0xBB, 0xCC, 0xDD, 0x00];
    let f = parse_fingerprint(&res).unwrap();
    assert_eq!(f.num_modules, 1);
    assert_eq!(f.active_logical_block, "Erase block 5");
    assert_eq!(f.suppliers.len(), 1);
    assert_eq!(f.suppliers[0].id, "05");
    assert_eq!(f.suppliers[0].programming_date, "123456");
    assert_eq!(f.suppliers[0].serial_number, "AABBCCDD");
    let none = parse_fingerprint(&[0x5A, 0x80, 0x00, 0xFE]).unwrap();
    assert_eq!(none.active_logical_block, "Erase all memory");
    assert!(none.suppliers.is_empty());
    assert!(matches!(
        parse_fingerprint(&[0x5A]),
        Err(ProtocolError::InvalidResponseSize { expect: 4, actual: 1 })
    ));
}

#[test]
fn uds_commands() {
    assert_eq!(UDSCommand::ReadDataByID.to_byte(), 0x22);
    assert_eq!(UDSCommand::TesterPresent.to_byte(), 0x3E);
    assert_eq!(UDSCommand::ReadDataByID.to_string(), "ReadDataByID");
    assert_eq!(UDSCommand::ECUReset.get_desc(), "--TODO--");
    assert_eq!(<UDSCommand as ECUCommand>::get_cmd_list().len(), 22);
    assert_eq!(uds::clear_errors_args(), [0xFF, 0x00]);
    assert_eq!(read_variant_id_args(), [0xF1, 0x00]);
    assert_eq!(uds::diag_session_control::DiagSession::Extended.to_byte(), 0x03);
    assert!(!uds::diag_session_control::DiagSession::Default.send_tester_present());
    assert_eq!(
        uds::diag_session_control::session_after_switch(uds::diag_session_control::DiagSession::Programming, false),
        uds::diag_session_control::DiagSession::Default
    );
}

#[test]
fn uds_negative_codes() {
    assert_eq!(<UDSNegativeCode as CommandError>::from_byte(0x78), UDSNegativeCode::ResponsePending);
    assert_eq!(<UDSNegativeCode as CommandError>::from_byte(0xAB), UDSNegativeCode::Reserved(0xAB));
    assert_eq!(UDSNegativeCode::GeneralReject.get_help(), None);
    let e = uds::check_reply(vec![0x7F, 0x27, 0x35]).unwrap_err();
    assert!(matches!(e, ProtocolError::ProtocolError(ECUError::UDS(UDSNegativeCode::InvalidKey))));
}

#[test]
fn uds_replies() {
    assert!(matches!(Cmd::from_byte(&0x22), Ok(Cmd::ReadDataByID)));
    assert!(matches!(Cmd::from_byte(&0x62), Ok(Cmd::ReadDataByID)));
    assert!(matches!(Cmd::from_byte(&0x00), Err(UDSProcessError::InvalidCommand)));
    assert_eq!(Cmd::TesterPresent.to_byte(), 0x3E);
    match UDSResponse::from_data(&[0x62, 0xF1, 0x00, 0x01]).unwrap() {
        UDSResponse::PositiveResponse(c, args) => {
            assert_eq!(c, Cmd::ReadDataByID);
            assert_eq!(args, vec![0xF1, 0x00, 0x01]);
        }
        _ => panic!("expected a positive reply"),
    }
    match UDSResponse::from_data(&[0x7F, 0x22, 0x31]).unwrap() {
        UDSResponse::NegativeResponse(c, n) => {
            assert_eq!(c, Cmd::ReadDataByID);
            assert_eq!(n, uds::request::UDSNegativeCode::RequestOutOfRange);
        }
        _ => panic!("expected a negative reply"),
    }
    assert!(matches!(UDSResponse::from_data(&[]), Err(UDSProcessError::InvalidDataLen)));
    assert!(matches!(UDSResponse::from_data(&[0x7F, 0x22]), Err(UDSProcessError::InvalidDataLen)));
    assert!(matches!(UDSResponse::from_data(&[0x7F, 0x22, 0x00]), Err(UDSProcessError::InvalidErrorCode)));
    assert!(matches!(UDSResponse::from_data(&[0x01]), Err(UDSProcessError::InvalidCommand)));
    let (r, pending) = classify_reply(&[0x7F, 0x22, 0x78]);
    assert!(pending);
    assert!(matches!(r, Ok(None)));
    let (r, pending) = classify_reply(&[]);
    assert!(!pending);
    assert!(matches!(r, Ok(None)));
    let (r, pending) = classify_reply(&[0x50, 0x01]);
    assert!(!pending);
    assert!(matches!(r, Ok(Some(UDSResponse::PositiveResponse(Cmd::DiagnosticSessionControl, _)))));
    let e = UDSProcessError::from_com_error(ComServerError { err_code: 1, err_desc: String::new() });
    assert!(matches!(e, UDSProcessError::CommError(_)));
}

#[test]
fn uds_request_payload() {
    let cfg = ISO15765Config { send_id: 0x7E0, recv_id: 0x7E8, block_size: 8, sep_time: 20 };
    let req = UDSRequest::new(uds::request::UDSCommand::ReadDataByID, &[0xF1, 0x90]);
    let p = req.to_payload(&cfg);
    assert_eq!(p.id, 0x7E0);
    assert_eq!(p.data, vec![0x22, 0xF1, 0x90]);
    assert!(!p.pad_frame);
}

#[test]
fn uds_data_arguments() {
    assert_eq!(parse_variant_id(&[0x62, 0xF1, 0x00, 0x00, 0x01, 0x02, 0x03]), 0x0102);
    let args = read_dtc_information_args(&dtc("P0123", 0x0123));
    assert_eq!(args, [0x06, 0x00, 0x01, 0x23]);
}

#[test]
fn obd_bits_and_commands() {
    assert_eq!(get_obd_bits(&[0b1010_0000]), vec![true, false, true, false, false, false, false, false]);
    assert_eq!(get_obd_bits(&[]), Vec::<bool>::new());
    assert_eq!(OBDCmd::Service01.to_byte(), 0x01);
    assert_eq!(OBDCmd::Service0A.to_byte(), 0x0A);
    assert_eq!(<OBDCmd as ECUCommand>::get_cmd_list().len(), 10);
    assert_eq!(ObdError::CmdNotSupported.get_desc(), "OBD Command not supported by ECU");
    assert_eq!(Service04::request_byte(), 0x04);
    assert_eq!(Service03::request_byte(), 0x03);
}

#[test]
fn obd_trouble_codes() {
    let mut res = Vec::new();
    decode_dtc_resp(&[0x02, 0x01, 0x23, 0x41, 0x05], DTCState::Stored, &mut res);
    assert_eq!(res.len(), 2);
    assert_eq!(res[0].error, "P0123");
    assert_eq!(res[0].id, 0x0123);
    assert!(res[0].check_engine_on);
    assert_eq!(res[1].error, "C0105");
    decode_dtc_resp(&[0x01, 0xC2, 0xFF], DTCState::Pending, &mut res);
    assert_eq!(res.len(), 3);
    assert_eq!(res[2].error, "U02FF");
    assert!(!res[2].check_engine_on);
    decode_dtc_resp(&[0x00], DTCState::Permanent, &mut res);
    assert_eq!(res.len(), 3);
    decode_dtc_resp(&[0x02, 0x12, 0x34, 0xF2, 0x10], DTCState::Stored, &mut res);
    assert_eq!(res[3].error, "P1234");
    assert_eq!(res[3].id, 0x1234);
    assert_eq!(res[4].error, "U3210");
    let s03 = Service03::decode_dtcs(&[0x43, 0x01, 0x01, 0x33]);
    assert_eq!(s03.len(), 1);
    assert_eq!(s03[0].error, "P0033");
    assert_eq!(s03[0].id, 0x33);
}

#[test]
fn obd_service01() {
    let s = Service01::from_reply(&[0x41, 0x00, 0b0011_0000, 0x00, 0x00, 0x00]);
    assert!(s.check_service_supported(3).is_ok());
    assert!(s.check_service_supported(4).is_ok());
    assert!(matches!(
        s.check_service_supported(5),
        Err(ProtocolError::ProtocolError(ECUError::OBD(ObdError::CmdNotSupported)))
    ));
    assert!(s.check_service_supported(200).is_err());
    let pids = s.get_supported_chartable_pids();
    assert_eq!(pids.len(), 2);
    assert_eq!(pids[0].0, 3);
    assert_eq!(pids[0].1, vec!["Fuel system status"]);
    assert_eq!(pids[1].0, 4);
    let mut s = s;
    s.extend_from_reply(&[0x41, 0x20, 0x00, 0x00, 0x00, 0x00]);
    assert!(s.check_service_supported(40).is_err());
    assert_eq!(pid_descriptions(0x0C), Some(vec!["Engine speed"]));
    assert_eq!(pid_descriptions(0x01), None);
    assert_eq!(get_fuel_status(2), "Closed loop, using O2 sensor feedback");
    assert_eq!(get_fuel_status(3), "Unknown. Raw: 0x03");
    assert_eq!(get_secondary_air_status(1), "Upstream");
    assert_eq!(get_secondary_air_status(0x10), "Unknown. Raw: 0x10");
    assert_eq!(get_obd_standard(6), "EOBD (Europe)");
    assert_eq!(get_obd_standard(40), "Reserved");
    assert_eq!(get_fuel_type(4), "Diesel");
    assert_eq!(get_fuel_type(99), "Unknown. Raw: 0x63");
}

#[test]
fn obd_service09() {
    let s = Service09::from_reply(&[0x49, 0x00, 0b0101_0000, 0x00, 0x00, 0x00]);
    assert!(s.check_service_supported(2).is_ok());
    assert!(s.check_service_supported(4).is_ok());
    assert!(s.check_service_supported(1).is_err());
    assert_eq!(Service09::vin_msg_count_from_reply(&[0x49, 0x01, 0x05]), 5);
    assert_eq!(Service09::text_from_reply(b"\x49\x02WDB123"), "WDB123");
    assert_eq!(Service09::text_from_reply(&[0x49, 0x02, 0x41, 0xFF]), "A\u{FFFD}");
    let cvns = Service09::cvns_from_reply(&[0x49, 0x06, 0x02, 0x12, 0x34, 0x56, 0x78, 0x9A, 0xBC, 0xDE, 0xF0]).unwrap();
    assert_eq!(cvns, vec!["12345678".to_string(), "9ABCDEF0".to_string()]);
    assert!(matches!(
        Service09::cvns_from_reply(&[0x49, 0x06, 0x02, 0x12]),
        Err(ProtocolError::InvalidResponseSize { expect: 11, actual: 4 })
    ));
    let data = Service09Data::from_results(
        Ok("VIN".to_string()),
        Err(ProtocolError::Timeout),
        Err(ProtocolError::Timeout),
        Ok("ECU".to_string()),
    );
    assert_eq!(data.vin, "VIN");
    assert_eq!(data.calibration_id, "Not Supported");
    assert!(data.cvns.is_empty());
    assert_eq!(data.ecu_name, "ECU");
}

#[test]
fn obd_server_services() {
    let s09 = Service09::from_reply(&[0x49, 0x00, 0x40, 0x00, 0x00, 0x00]);
    let server = ObdServer::new(None, Some(s09));
    let services = server.get_supported_services();
    assert_eq!(services.len(), 10);
    assert_eq!(services[0], (false, 0x01, "Sensor data".to_string()));
    assert_eq!(services[2], (true, 0x03, "Read DTCs".to_string()));
    assert_eq!(services[8], (true, 0x09, "Vehicle Info".to_string()));
    assert_eq!(services[9], (false, 0x0A, "Permanent DTCs".to_string()));
    let r = server.req_service09(|s| s.check_service_supported(2));
    assert!(r.is_ok());
    let none = ObdServer::new(None, None);
    match none.req_service09(|s| s.check_service_supported(2)) {
        Err(ProtocolError::CustomError(m)) => assert_eq!(m, "Service not supported by ECU"),
        _ => panic!("expected the service to be missing"),
    }
}

#[test]
fn vin_decoding() {
    assert_eq!(Vin::get_year('A'), 2010);
    assert_eq!(Vin::get_year('Y'), 2000);
    assert_eq!(Vin::get_year('Z'), 0);
    assert_eq!(Vin::get_wmi(b"WDD"), ("Germany".to_string(), "Daimler AG".to_string()));
    assert_eq!(Vin::get_wmi(b"JN1"), ("Japan".to_string(), "Nissan".to_string()));
    assert_eq!(Vin::get_wmi(b"ZZZ"), ("Unknown".to_string(), "Unknown".to_string()));
    let v = Vin::new("WDB2030461A123456".to_string()).unwrap();
    assert_eq!(v.year, 2001);
    assert_eq!(v.manufacture_location, "Germany");
    assert_eq!(v.manufacture_name, "Mercedes-Benz");
    assert_eq!(v.raw, "WDB2030461A123456");
    assert!(Vin::new("SHORT".to_string()).is_none());
}

#[test]
fn server_rounds() {
    assert_eq!(TESTER_PRESENT_INTERVAL_MS, 2000);
    let t = server_tick(true, 10, true);
    assert!(t.run_command);
    assert!(!t.send_tester_present);
    let t = server_tick(false, 2000, true);
    assert!(!t.run_command);
    assert!(t.send_tester_present);
    assert!(!server_tick(false, 5000, false).send_tester_present);
}

#[test]
fn service01_support_blocks() {
    // PIDs 0x20 (end of block 1) and 0x40 (end of block 2) supported.
    let mut s = Service01::from_reply(&[0x41, 0x00, 0x00, 0x00, 0x00, 0x01]);
    assert_eq!(s.next_support_query(0x00), Some(0x20));
    s.extend_from_reply(&[0x41, 0x20, 0x00, 0x00, 0x00, 0x01]);
    assert_eq!(s.next_support_query(0x20), Some(0x40));
    s.extend_from_reply(&[0x41, 0x40, 0x00, 0x00, 0x00, 0x00]);
    assert_eq!(s.next_support_query(0x40), None);
    assert_eq!(s.next_support_query(0xC0), None);
    let none = Service01::from_reply(&[0x41, 0x00, 0xFF, 0xFF, 0xFF, 0xFE]);
    assert_eq!(none.next_support_query(0x00), None);
}

#[test]
fn obd_replies() {
    assert_eq!(
        obd2::dtc_services(),
        [(0x03, DTCState::Stored), (0x07, DTCState::Pending), (0x0A, DTCState::Permanent)]
    );
    assert_eq!(obd2::check_reply(vec![0x41, 0x00]).unwrap(), vec![0x41, 0x00]);
    assert!(matches!(
        obd2::check_reply(vec![0x7F]),
        Err(ProtocolError::ProtocolError(ECUError::OBD(ObdError::CmdNotSupported)))
    ));
    assert_eq!(obd2::interpret_iso_tp_reply(0x09, vec![0x49, 0x02]).unwrap(), vec![0x49, 0x02]);
    assert!(obd2::interpret_iso_tp_reply(0x09, vec![0x41]).unwrap_err().is_timeout());
    assert!(matches!(
        obd2::interpret_iso_tp_reply(0x09, vec![0x7F, 0x09, 0x11]),
        Err(ProtocolError::ProtocolError(ECUError::OBD(ObdError::CmdNotSupported)))
    ));
}

#[test]
fn typed_hex_values() {
    assert_eq!(parse_hex_payload("10 92"), vec![0x10, 0x92]);
    assert_eq!(parse_hex_payload("+1f 0010 ff"), vec![0x1F, 0x10, 0xFF]);
    assert_eq!(parse_hex_payload("10  92"), Vec::<u8>::new());
    assert_eq!(parse_hex_payload("10 "), Vec::<u8>::new());
    assert_eq!(parse_hex_payload(""), Vec::<u8>::new());
    assert_eq!(parse_hex_payload("100"), Vec::<u8>::new());
    assert_eq!(parse_hex_payload("-1"), Vec::<u8>::new());
    assert_eq!(parse_hex_payload("+"), Vec::<u8>::new());
    assert_eq!(parse_hex_payload("1g"), Vec::<u8>::new());
    assert_eq!(parse_hex_address("7E0"), Ok(0x7E0));
    assert_eq!(parse_hex_address("ffffffff"), Ok(0xFFFF_FFFF));
    assert_eq!(parse_hex_address("100000000"), Err("'100000000' is not a valid hex input".to_string()));
    assert_eq!(parse_hex_address("xyz"), Err("'xyz' is not a valid hex input".to_string()));
    assert_eq!(parse_hex_address(""), Err("'' is not a valid hex input".to_string()));
    assert_eq!(obd_service_name(0x03), "OBD ShowStoredDTCs");
    assert_eq!(obd_service_name(0x00), "UNKNOWN OBD SID!");
    assert!(!sid_supported(Some(0x11)));
    assert!(sid_supported(Some(0x12)));
    assert!(sid_supported(None));
    for s in ["10 92", "0 1 2", "ab"] {
        let expect: Vec<u8> = s.split(' ').map(|t| u8::from_str_radix(t, 16).unwrap()).collect();
        assert_eq!(parse_hex_payload(s), expect);
    }
}

#[test]
fn session_log() {
    let mut log = LogView::new();
    log.add_log("10 92".to_string(), "50 92".to_string(), LogType::Info);
    log.add_msg("hello".to_string(), LogType::Warn);
    assert_eq!(log.len(), 2);
    assert_eq!(log.entry(0).response, Some("50 92".to_string()));
    assert_eq!(log.entry(1).request, Some("hello".to_string()));
    assert!(log.entry(1).response.is_none());
    let codes: Result<Vec<DTC>, ProtocolError> = Ok(vec![dtc("P0101", 0x0101), dtc("P0202", 0x0202)]);
    assert!(report_read_codes(&mut log, &codes));
    assert_eq!(log.len(), 5);
    assert_eq!(log.entry(2).request, Some("Found 2 errors".to_string()));
    assert_eq!(log.entry(3).request, Some("P0101".to_string()));
    assert_eq!(log.entry(4).log_type, LogType::Warn);
    assert!(!report_read_codes(&mut log, &Ok(vec![])));
    assert_eq!(log.entry(5).request, Some("No ECU Errors found".to_string()));
    assert!(!report_read_codes(&mut log, &Err(ProtocolError::Timeout)));
    assert_eq!(log.entry(6).request, Some("Error reading ECU errors: Communication timeout".to_string()));
    assert_eq!(log.entry(6).log_type, LogType::Error);
    report_clear_codes(&mut log, &Ok(()));
    assert_eq!(log.entry(7).request, Some("ECU Errors cleared successfully".to_string()));
    report_clear_codes(&mut log, &Err(ProtocolError::CustomError("busy".to_string())));
    assert_eq!(log.entry(8).request, Some("Error clearing ECU errors: busy".to_string()));
    log.clear_logs();
    assert_eq!(log.len(), 0);
}

#[test]
fn obd_address_candidates() {
    let c = obd2::iso_tp_candidates();
    assert_eq!(c.len(), 3);
    assert_eq!(c.iter().map(|x| x.recv_id).collect::<Vec<u32>>(), vec![0x7E8, 0x7E9, 0x7E0]);
    assert!(c.iter().all(|x| x.send_id == 0x7DF && x.block_size == 8 && x.sep_time == 20));
}

#[test]
fn uds_negative_code_bytes() {
    assert!(matches!(
        uds::request::UDSNegativeCode::from_byte(&0x8D),
        Ok(uds::request::UDSNegativeCode::TransmissionNotInGear)
    ));
    assert!(matches!(
        uds::request::UDSNegativeCode::from_byte(&0x8C),
        Ok(uds::request::UDSNegativeCode::TransmissionNotInNeutral)
    ));
    assert!(matches!(uds::request::UDSNegativeCode::from_byte(&0x00), Err(UDSProcessError::InvalidErrorCode)));
}

#[test]
fn obd_interfaces() {
    assert!(obd2::check_obd_interface(openvehiclediag::iface::InterfaceType::IsoTp).is_ok());
    match obd2::check_obd_interface(openvehiclediag::iface::InterfaceType::Iso9141) {
        Err(ProtocolError::CustomError(m)) => assert_eq!(m, "OBD-II over ISO9141 is a WIP"),
        _ => panic!("ISO 9141 is not served"),
    }
    match obd2::check_obd_interface(openvehiclediag::iface::InterfaceType::Can) {
        Err(ProtocolError::CustomError(m)) => assert_eq!(m, "OBD-II Can only be executed over ISO-TP or ISO9141"),
        _ => panic!("plain CAN is not served"),
    }
}
