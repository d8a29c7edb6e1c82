use openvehiclediag::bytes::{clone_bytes, copy_all, copy_range};
use openvehiclediag::comm_api::{
    collect_iso15765_replies, push_byte_list, push_hex_padded4, CanFrame, Capability,
    ComServerError, DeviceCapabilities, FilterType, ISO15765Config, ISO15765Data,
};
use openvehiclediag::comserver;
use openvehiclediag::iface::{
    can_frame_to_payload, can_setup_params, check_interface_support, dynamic_interface_name,
    first_reply, iso15765_to_payload, isotp_setup_params, payload_to_can_frame,
    payload_to_iso15765, not_configured_error, InterfaceConfig, InterfacePayload, InterfaceType, PayloadFlag,
    IFACE_CFG,
};
use openvehiclediag::passthru::{
    collect_devices, device_from_entry, DeviceFlags, LoadDeviceError, PassthruDevice,
};
use openvehiclediag::passthru_msg::{
    can_frame_to_pt_msg, iso15765_to_pt_msg, msg_id_to_u32, pt_msg_to_can_frame,
    pt_msg_to_iso15765, u32_to_msg_id, PassthruMsg, PASSTHRU_DATA_SIZE, PROTOCOL_CAN,
    PROTOCOL_ISO15765, TX_ISO15765_FRAME_PAD,
};
use openvehiclediag::passthru::DrvVersion;
use openvehiclediag::passthru_api::{
    can_filter_msgs, can_frames_from_msgs, collect_iso15765_packets, connect_flags,
    device_capabilities, filter_msg, iso15765_filter_msgs,
};
use openvehiclediag::j2534::{check_filter_request, read_count, status_result, PassthruError, FLOW_CONTROL_FILTER};
use openvehiclediag::pdu_api::DpduAPI;
use openvehiclediag::tracer::{byte_text, can_speeds, changed_bytes, default_can_speed, CanTrace};
use openvehiclediag::scan::{
    flow_control_config, is_flow_control_reply, next_scan_id, note_busy, probe_frame,
    record_responder, scan_poll, stage_step, wake_up_frame, ECUDiagSettings, ScanAction, StageAction,
    DiagScannerMessage,
};

use openvehiclediag::text::{
    byte_hex, decimal_text, push_decimal, push_hex1, push_hex2, push_hex_min, push_hex_space2,
};

fn caps(iso15765: Capability) -> DeviceCapabilities {
    DeviceCapabilities {
        name: "Dev".to_string(),
        vendor: "Vendor".to_string(),
        library_path: "/usr/lib/dev.so".to_string(),
        device_fw_version: "1.2".to_string(),
        library_version: "04.04".to_string(),
        j1850vpw: Capability::No,
        j1850pwm: Capability::No,
        can: Capability::Yes,
        iso15765,
        iso9141: Capability::NA,
        iso14230: Capability::No,
        ip: Capability::NA,
    }
}

fn flags() -> DeviceFlags {
    DeviceFlags {
        can: true,
        iso15765: true,
        iso9141: false,
        iso14230: false,
        sci_a_trans: false,
        sci_a_engine: false,
        sci_b_trans: false,
        sci_b_engine: false,
        j1850vpw: true,
        j1850pwm: false,
    }
}

#[test]
fn test_connect() {
    let f = comserver::CanFrame::new(0x07E0, &[0x02, 0x10, 0x92], false);
    let msg = f.to_pt_msg();
    let back = comserver::frame_from_pt_msg(&msg);
    assert_eq!(back.id, 0x07E0);
    assert_eq!(back.dlc, 3);
    assert_eq!(&back.data[0..3], &[0x02, 0x10, 0x92]);
}

#[test]
fn hex_and_decimal_text() {
    assert_eq!(byte_hex(0xAB), "AB");
    assert_eq!(byte_hex(0x05), "05");
    assert_eq!(decimal_text(0), "0");
    assert_eq!(decimal_text(1234), "1234");
    let mut s = String::new();
    push_hex_min(&mut s, 0x1F);
    push_hex_min(&mut s, 0);
    assert_eq!(s, "1F0");
    let mut s = String::from("x");
    push_hex2(&mut s, 0x0C);
    push_hex1(&mut s, 0xA);
    push_decimal(&mut s, 42);
    push_hex_space2(&mut s, 0x7);
    assert_eq!(s, "x0CA42 7");
}

#[test]
fn byte_copies() {
    assert_eq!(copy_range(&[1, 2, 3, 4, 5], 1, 4), vec![2, 3, 4]);
    assert_eq!(copy_range(&[1, 2], 2, 2), Vec::<u8>::new());
    assert_eq!(copy_all(&[9, 8]), vec![9, 8]);
    assert_eq!(clone_bytes(&vec![7, 6, 5]), vec![7, 6, 5]);
}

#[test]
fn can_frame_new_and_text() {
    let f = CanFrame::new(0x7E0, &[1, 2, 3]);
    assert_eq!(f.dlc, 3);
    assert_eq!(f.get_data(), &[1, 2, 3]);
    assert_eq!(f.data, [1, 2, 3, 0, 0, 0, 0, 0]);
    assert_eq!(f.to_string(), "ID: 0x07E0 Data: [01, 02, 03]");
    let long = CanFrame::new(0x12345, &[0, 1, 2, 3, 4, 5, 6, 7, 8, 9]);
    assert_eq!(long.dlc, 8);
    assert_eq!(long.get_data(), &[0, 1, 2, 3, 4, 5, 6, 7]);
    assert_eq!(long.to_string(), "ID: 0x12345 Data: [00, 01, 02, 03, 04, 05, 06, 07]");
    let empty = CanFrame::new(5, &[]);
    assert_eq!(empty.to_string(), "ID: 0x0005 Data: []");
}

#[test]
fn byte_list_and_padding() {
    let mut s = String::new();
    push_byte_list(&mut s, &[0xDE, 0xAD]);
    assert_eq!(s, "[DE, AD]");
    let mut s = String::new();
    push_hex_padded4(&mut s, 0xABC);
    push_hex_padded4(&mut s, 0x1_0000);
    assert_eq!(s, "0ABC10000");
}

#[test]
fn iso15765_data_text() {
    let d = ISO15765Data { id: 0x7E8, data: vec![0x50, 0x03], pad_frame: false, ext_addressing: false };
    assert_eq!(d.to_string(), "ISO15765: ID: 0x07E8, Payload: [50, 03]");
}

#[test]
fn com_server_error_text() {
    let e = ComServerError { err_code: 5, err_desc: "bad channel".to_string() };
    assert_eq!(e.to_string(), "Error code 5 (bad channel)");
}

#[test]
fn capability_and_device_getters() {
    assert_eq!(Capability::from_bool(true), Capability::Yes);
    assert_eq!(Capability::from_bool(false), Capability::No);
    let c = caps(Capability::Yes);
    assert_eq!(c.get_name(), "Dev");
    assert_eq!(c.get_vendor(), "Vendor");
    assert_eq!(c.get_lib_path(), "/usr/lib/dev.so");
    assert_eq!(c.get_device_fw_version(), "1.2");
    assert_eq!(c.get_library_version(), "04.04");
    assert_eq!(c.support_can_fd(), Capability::Yes);
    assert_eq!(c.supports_iso15765(), Capability::Yes);
    assert_eq!(c.supports_j1850pwm(), Capability::No);
    assert_eq!(c.supports_j1850vpw(), Capability::No);
    assert_eq!(c.supports_iso9141(), Capability::NA);
    assert_eq!(c.supports_iso14230(), Capability::No);
    assert_eq!(c.supports_doip(), Capability::NA);
}

#[test]
fn collect_replies_stops_at_max() {
    let first = ISO15765Data { id: 1, data: vec![1], pad_frame: false, ext_addressing: false };
    let reply = ISO15765Data { id: 2, data: vec![], pad_frame: false, ext_addressing: false };
    let mut payloads = Vec::new();
    let t = collect_iso15765_replies(100, &mut payloads, vec![first.clone(), reply.clone(), reply.clone()], 2);
    assert_eq!(t, 0);
    assert_eq!(payloads.len(), 2);
    let mut payloads = Vec::new();
    let t = collect_iso15765_replies(100, &mut payloads, vec![first.clone(), reply.clone(), first], 0);
    assert_eq!(t, 120);
    assert_eq!(payloads.len(), 1);
    assert_eq!(payloads[0].id, 2);
}

#[test]
fn filter_and_config_values() {
    let f = FilterType::IsoTP { id: 0x7E8, mask: 0xFFFF, fc: 0x7E0 };
    assert_eq!(f, FilterType::IsoTP { id: 0x7E8, mask: 0xFFFF, fc: 0x7E0 });
    assert_ne!(f, FilterType::Pass { id: 0x7E8, mask: 0xFFFF });
    let cfg = ISO15765Config { send_id: 0x7E0, recv_id: 0x7E8, block_size: 8, sep_time: 20 };
    assert_eq!(cfg.send_id, 0x7E0);
}

#[test]
fn interface_config_read_after_write() {
    let mut cfg = InterfaceConfig::new();
    assert_eq!(cfg.get_param_or_default(IFACE_CFG::BAUDRATE, 7), 7);
    cfg.add_param(IFACE_CFG::BAUDRATE, 500_000);
    cfg.add_param(IFACE_CFG::SEND_ID, 0x7E0);
    cfg.add_param(IFACE_CFG::BAUDRATE, 250_000);
    assert_eq!(cfg.get_param(IFACE_CFG::BAUDRATE).unwrap(), 250_000);
    assert_eq!(cfg.get_param(IFACE_CFG::SEND_ID).unwrap(), 0x7E0);
    let e = cfg.get_param(IFACE_CFG::RECV_ID).unwrap_err();
    assert_eq!(e.err_code, 999);
    assert_eq!(e.err_desc, "Interface configuration has missing parameter RECV_ID");
}

#[test]
fn iface_cfg_names() {
    assert_eq!(IFACE_CFG::BAUDRATE.to_string(), "BAUDRATE");
    assert_eq!(IFACE_CFG::PAD_FLOW_CONTROL.to_string(), "PAD_FLOW_CONTROL");
    assert_eq!(IFACE_CFG::ISOTP_ST_MIN.to_string(), "ISOTP_ST_MIN");
}

#[test]
fn interface_names() {
    assert_eq!(dynamic_interface_name(None), "Not configured");
    assert_eq!(dynamic_interface_name(Some(InterfaceType::IsoTp)), "ISO15765 (ISO-TP)");
    assert_eq!(dynamic_interface_name(Some(InterfaceType::Iso9141)), "ISO9141 (OBD-II)");
}

#[test]
fn interface_support_errors() {
    assert!(check_interface_support(InterfaceType::Can, &caps(Capability::No)).is_ok());
    let e = check_interface_support(InterfaceType::IsoTp, &caps(Capability::No)).unwrap_err();
    assert_eq!(e.err_code, 1);
    assert_eq!(e.err_desc, "Device does not support IsoTP");
    let e = check_interface_support(InterfaceType::Iso9141, &caps(Capability::Yes)).unwrap_err();
    assert_eq!(e.err_desc, "Device does not support ISO9141");
}

#[test]
fn channel_setup_parameters() {
    let mut cfg = InterfaceConfig::new();
    assert_eq!(can_setup_params(&cfg).unwrap_err().err_code, 999);
    assert_eq!(isotp_setup_params(&cfg).unwrap_err().err_code, 999);
    cfg.add_param(IFACE_CFG::BAUDRATE, 500_000);
    assert_eq!(can_setup_params(&cfg).unwrap(), (500_000, false));
    let s = isotp_setup_params(&cfg).unwrap();
    assert_eq!(s.baud, 500_000);
    assert!(!s.ext_can);
    assert!(!s.ext_isotp);
    assert_eq!(s.sep_time_min, 20);
    assert_eq!(s.block_size, 8);
    cfg.add_param(IFACE_CFG::EXT_CAN_ADDR, 1);
    cfg.add_param(IFACE_CFG::ISOTP_BS, 0);
    cfg.add_param(IFACE_CFG::ISOTP_ST_MIN, 5);
    assert_eq!(can_setup_params(&cfg).unwrap(), (500_000, true));
    let s = isotp_setup_params(&cfg).unwrap();
    assert!(s.ext_can);
    assert_eq!(s.block_size, 0);
    assert_eq!(s.sep_time_min, 5);
}

#[test]
fn payload_conversions() {
    let mut p = InterfacePayload::new(0x7E0, &[0x02, 0x3E, 0x01]);
    assert!(!p.is_flag_set(PayloadFlag::ISOTP_PAD_FRAME));
    p.flags.push(PayloadFlag::ISOTP_PAD_FRAME);
    assert!(p.is_flag_set(PayloadFlag::ISOTP_PAD_FRAME));
    assert!(!p.is_flag_set(PayloadFlag::ISOTP_EXT_ADDR));
    let d = payload_to_iso15765(&p);
    assert_eq!(d.id, 0x7E0);
    assert_eq!(d.data, vec![0x02, 0x3E, 0x01]);
    assert!(d.pad_frame);
    assert!(!d.ext_addressing);
    let back = iso15765_to_payload(&d);
    assert_eq!(back.data, p.data);
    assert!(back.flags.is_empty());
    let f = payload_to_can_frame(&p);
    assert_eq!(f.dlc, 3);
    let q = can_frame_to_payload(&f);
    assert_eq!(q.id, 0x7E0);
    assert_eq!(q.data, vec![0x02, 0x3E, 0x01]);
}

#[test]
fn first_reply_or_timeout() {
    let e = first_reply(vec![]).unwrap_err();
    assert_eq!(e.err_code, 2);
    assert_eq!(e.err_desc, "Timeout waiting");
    let r = first_reply(vec![InterfacePayload::new(1, &[1]), InterfacePayload::new(2, &[2])]).unwrap();
    assert_eq!(r.id, 1);
}

#[test]
fn passthru_id_round_trip() {
    let mut m = PassthruMsg::new();
    assert_eq!(m.data.len(), PASSTHRU_DATA_SIZE);
    m.timestamp = 77;
    m.extra_data_index = 5;
    m.data[4] = 0xAB;
    u32_to_msg_id(0x1234_5678, &mut m);
    assert_eq!(&m.data[0..4], &[0x12, 0x34, 0x56, 0x78]);
    assert_eq!(m.data[4], 0xAB);
    assert_eq!(m.timestamp, 77);
    assert_eq!(m.extra_data_index, 5);
    assert_eq!(msg_id_to_u32(&m), 0x1234_5678);
}

#[test]
fn passthru_can_round_trip() {
    let f = CanFrame::new(0x7DF, &[0x02, 0x01, 0x00]);
    let m = can_frame_to_pt_msg(&f);
    assert_eq!(m.protocol_id, PROTOCOL_CAN);
    assert_eq!(m.data_size, 7);
    assert_eq!(&m.data[0..7], &[0x00, 0x00, 0x07, 0xDF, 0x02, 0x01, 0x00]);
    let back = pt_msg_to_can_frame(&m).unwrap();
    assert_eq!(back.id, 0x7DF);
    assert_eq!(back.get_data(), &[0x02, 0x01, 0x00]);
    let mut other = m.clone();
    other.protocol_id = PROTOCOL_ISO15765;
    assert!(pt_msg_to_can_frame(&other).is_none());
    let mut short = m.clone();
    short.data_size = 3;
    assert!(pt_msg_to_can_frame(&short).is_none());
}

#[test]
fn passthru_iso15765_round_trip() {
    let d = ISO15765Data { id: 0x7E0, data: vec![0x10, 0x92], pad_frame: true, ext_addressing: false };
    let m = iso15765_to_pt_msg(&d);
    assert_eq!(m.protocol_id, PROTOCOL_ISO15765);
    assert_eq!(m.tx_flags, TX_ISO15765_FRAME_PAD);
    assert_eq!(m.data_size, 6);
    let back = pt_msg_to_iso15765(&m).unwrap();
    assert_eq!(back.id, 0x7E0);
    assert_eq!(back.data, vec![0x10, 0x92]);
    assert!(!back.pad_frame);
    let plain = ISO15765Data { id: 1, data: vec![], pad_frame: false, ext_addressing: false };
    assert_eq!(iso15765_to_pt_msg(&plain).tx_flags, 0);
    assert!(pt_msg_to_iso15765(&can_frame_to_pt_msg(&CanFrame::new(1, &[1]))).is_none());
}

#[test]
fn raw_can_frames() {
    let f = comserver::CanFrame::from_byte_array(&[0x00, 0x00, 0x07, 0xE8, 0xAA, 0xBB], true);
    assert_eq!(f.id, 0x7E8);
    assert_eq!(f.dlc, 2);
    assert_eq!(f.data, [0xAA, 0xBB, 0, 0, 0, 0, 0, 0]);
    assert!(f.is_extended);
    assert_eq!(f.to_string(), "ID: 0x07E8 (EXT) Data: [AA, BB]");
    let std_frame = comserver::CanFrame::new(0x123, &[1], false);
    assert_eq!(std_frame.to_string(), "ID: 0x0123 (STD) Data: [01]");
    let m = f.to_pt_msg();
    assert_eq!(m.data_size, 6);
    assert_eq!(m.tx_flags, 0x100);
    assert_eq!(m.protocol_id, 0);
    assert_eq!(&m.data[0..12], &[0, 0, 0x07, 0xE8, 0xAA, 0xBB, 0, 0, 0, 0, 0, 0]);
    let mut rx = m.clone();
    rx.rx_status = 0x100;
    let back = comserver::frame_from_pt_msg(&rx);
    assert_eq!(back.id, 0x7E8);
    assert!(back.is_extended);
    rx.rx_status = 0;
    assert!(!comserver::frame_from_pt_msg(&rx).is_extended);
}

#[test]
fn load_device_error_texts() {
    assert_eq!(LoadDeviceError::NoName.get_err_desc(), "No device name attribute");
    assert_eq!(LoadDeviceError::NoVendor.get_err_desc(), "No device vendor attribute");
    assert_eq!(LoadDeviceError::NoFunctionLib.get_err_desc(), "No device function library attribute");
    assert_eq!(LoadDeviceError::NoPermission.get_err_desc(), "No permission reading device attributes");
    assert_eq!(LoadDeviceError::InvalidJSON.get_err_desc(), "Device JSON File malformed");
    assert_eq!(LoadDeviceError::IoError("denied".to_string()).get_err_desc(), "IO Error: denied");
    assert_eq!(LoadDeviceError::LibLoadError("missing".to_string()).get_err_desc(), "Library load error: missing");
    assert_eq!(LoadDeviceError::NoDeviceFound.get_err_desc(), "No devices found on machine");
}

#[test]
fn device_entries() {
    let e = device_from_entry(None, Some("n".to_string()), Some("v".to_string()), flags());
    assert!(matches!(e, Err(LoadDeviceError::NoFunctionLib)));
    let e = device_from_entry(Some("l".to_string()), None, None, flags());
    assert!(matches!(e, Err(LoadDeviceError::NoName)));
    let e = device_from_entry(Some("l".to_string()), Some("n".to_string()), None, flags());
    assert!(matches!(e, Err(LoadDeviceError::NoVendor)));
    let d: PassthruDevice = device_from_entry(
        Some("/lib/a.so".to_string()),
        Some("Macchina".to_string()),
        Some("M2".to_string()),
        flags(),
    )
    .unwrap();
    assert_eq!(d.drv_path, "/lib/a.so");
    assert_eq!(d.name, "Macchina");
    assert_eq!(d.vendor, "M2");
    assert!(d.can && d.iso15765 && d.j1850vpw);
    assert!(!d.iso9141 && !d.j1850pwm && !d.sci_a_trans);
}

#[test]
fn devices_found_or_none() {
    assert!(matches!(collect_devices(vec![]), Err(LoadDeviceError::NoDeviceFound)));
    assert!(matches!(
        collect_devices(vec![Err(LoadDeviceError::NoName), Err(LoadDeviceError::InvalidJSON)]),
        Err(LoadDeviceError::NoDeviceFound)
    ));
    let good = device_from_entry(Some("l".to_string()), Some("n".to_string()), Some("v".to_string()), flags());
    let found = collect_devices(vec![Err(LoadDeviceError::NoName), good]).unwrap();
    assert_eq!(found.len(), 1);
    assert_eq!(found[0].name, "n");
}

#[test]
fn pdu_api_never_connected() {
    assert!(!DpduAPI {}.is_connected());
}

fn device() -> PassthruDevice {
    device_from_entry(Some("/lib/m2.so".to_string()), Some("M2".to_string()), Some("Macchina".to_string()), flags()).unwrap()
}

#[test]
fn capabilities_of_a_device() {
    let c = device_capabilities(&device(), None);
    assert_eq!(c.name, "M2");
    assert_eq!(c.vendor, "Macchina");
    assert_eq!(c.library_path, "/lib/m2.so");
    assert_eq!(c.library_version, "Unknown");
    assert_eq!(c.device_fw_version, "Unknown");
    assert_eq!(c.can, Capability::Yes);
    assert_eq!(c.iso9141, Capability::No);
    assert_eq!(c.j1850vpw, Capability::Yes);
    assert_eq!(c.ip, Capability::NA);
    let v = DrvVersion { dll_version: "1.0".to_string(), api_version: "04.04".to_string(), fw_version: "0.9".to_string() };
    let c = device_capabilities(&device(), Some(v));
    assert_eq!(c.library_version, "1.0");
    assert_eq!(c.device_fw_version, "0.9");
}

#[test]
fn filter_messages() {
    assert_eq!(connect_flags(true), 0x100);
    assert_eq!(connect_flags(false), 0);
    let m = filter_msg(PROTOCOL_CAN, 0x7E8);
    assert_eq!(m.protocol_id, PROTOCOL_CAN);
    assert_eq!(m.data_size, 4);
    assert_eq!(&m.data[0..5], &[0, 0, 0x07, 0xE8, 0]);
    let (mask, pattern) = can_filter_msgs(0x7E8, 0xFFFF);
    assert_eq!(&mask.data[0..4], &[0, 0, 0xFF, 0xFF]);
    assert_eq!(&pattern.data[0..4], &[0, 0, 0x07, 0xE8]);
    let (mask, pattern, fc) = iso15765_filter_msgs(0x7E8, 0xFFFF, 0x7E0);
    assert_eq!(mask.protocol_id, PROTOCOL_ISO15765);
    assert_eq!(&mask.data[0..4], &[0, 0, 0xFF, 0xFF]);
    assert_eq!(&pattern.data[0..4], &[0, 0, 0x07, 0xE8]);
    assert_eq!(&fc.data[0..4], &[0, 0, 0x07, 0xE0]);
}

#[test]
fn received_iso15765_packets() {
    let with_data = iso15765_to_pt_msg(&ISO15765Data { id: 0x7E8, data: vec![0x62, 0x01], pad_frame: false, ext_addressing: false });
    let ack = iso15765_to_pt_msg(&ISO15765Data { id: 0x7E8, data: vec![], pad_frame: false, ext_addressing: false });
    let mut res = Vec::new();
    let done = collect_iso15765_packets(&mut res, &vec![ack.clone(), with_data.clone()], 2);
    assert!(!done);
    assert_eq!(res.len(), 1);
    assert_eq!(res[0].data, vec![0x62, 0x01]);
    let done = collect_iso15765_packets(&mut res, &vec![with_data, ack], 2);
    assert!(done);
    assert_eq!(res.len(), 2);
}

#[test]
fn received_can_frames() {
    let msgs = vec![can_frame_to_pt_msg(&CanFrame::new(0x100, &[1, 2])), can_frame_to_pt_msg(&CanFrame::new(0x200, &[]))];
    let frames = can_frames_from_msgs(&msgs);
    assert_eq!(frames.len(), 2);
    assert_eq!(frames[0].id, 0x100);
    assert_eq!(frames[0].get_data(), &[1, 2]);
    assert_eq!(frames[1].dlc, 0);
    let raw = vec![comserver::CanFrame::new(0x7E8, &[9], true).to_pt_msg()];
    let back = comserver::frames_from_pt_msgs(&raw);
    assert_eq!(back.len(), 1);
    assert_eq!(back[0].id, 0x7E8);
    assert!(!back[0].is_extended);
}

#[test]
fn unconfigured_interface_error() {
    let e = not_configured_error();
    assert_eq!(e.err_code, 98);
    assert_eq!(e.err_desc, "Dynamic interface not configured!");
}

#[test]
fn scan_decisions() {
    let w = wake_up_frame();
    assert_eq!(w.id, 0x7DF);
    assert_eq!(w.get_data(), &[0x09, 0x02]);
    let p = probe_frame(0x123);
    assert_eq!(p.get_data(), &[0x10, 0x10, 0, 0, 0, 0, 0, 0]);
    let fc = CanFrame::new(0x7E8, &[0x30, 0x08, 0x14, 0, 0, 0, 0, 0]);
    assert!(is_flow_control_reply(&fc));
    assert!(!is_flow_control_reply(&CanFrame::new(0x7E8, &[0x30, 0x08])));
    assert!(!is_flow_control_reply(&CanFrame::new(0x7E8, &[0x21, 0, 0, 0, 0, 0, 0, 0])));
    let cfg = flow_control_config(0x7E0, &fc);
    assert_eq!((cfg.send_id, cfg.recv_id, cfg.block_size, cfg.sep_time), (0x7E0, 0x7E8, 8, 0x14));
    let mut busy = std::collections::HashSet::new();
    note_busy(&mut busy, 2);
    note_busy(&mut busy, 3);
    note_busy(&mut busy, 2);
    assert_eq!(busy.len(), 2);
    assert!(busy.contains(&2) && busy.contains(&3));
    assert_eq!(next_scan_id(1, &busy), 4);
    assert_eq!(next_scan_id(0, &busy), 1);
    let mut results = Vec::new();
    record_responder(&mut results, 0x10, 0x18);
    record_responder(&mut results, 0x20, 0x28);
    record_responder(&mut results, 0x10, 0x19);
    assert_eq!(results, vec![(0x10, vec![0x18, 0x19]), (0x20, vec![0x28])]);
    assert_eq!(scan_poll(1, 9999, 0, 0, 0), ScanAction::RecordTraffic);
    assert_eq!(scan_poll(1, 10000, 0, 0, 0), ScanAction::NextStage);
    assert_eq!(scan_poll(2, 50, 5, 0, 0), ScanAction::ReadProbeReplies);
    assert_eq!(scan_poll(2, 100, 5, 0, 0), ScanAction::ProbeNextId);
    assert_eq!(scan_poll(2, 0, 0x7FF, 0, 0), ScanAction::NextStage);
    assert_eq!(scan_poll(3, 100, 0, 2, 0), ScanAction::ReadConfirmation);
    assert_eq!(scan_poll(3, 101, 0, 2, 0), ScanAction::ConfirmCandidate);
    assert_eq!(scan_poll(3, 101, 2, 2, 0), ScanAction::NextStage);
    assert_eq!(scan_poll(4, 4999, 0, 0, 0), ScanAction::CoolDown);
    assert_eq!(scan_poll(5, 0, 0, 0, 1), ScanAction::ProbeKwp2000);
    assert_eq!(scan_poll(6, 0, 1, 0, 1), ScanAction::NextStage);
    assert_eq!(scan_poll(0, 0, 0, 0, 0), ScanAction::Idle);
    let e = ECUDiagSettings::from_config(&cfg);
    assert_eq!(e.to_string(), "Unknown ECU name (0x07E0)");
    assert!(!e.kwp_support && !e.uds_support);
}

#[test]
fn can_tracer_table() {
    let speeds = can_speeds();
    assert_eq!(speeds.len(), 14);
    assert_eq!(speeds[0].baud, 5000);
    assert_eq!(speeds[4].to_string(), "33.3 kbit/s");
    assert_eq!(speeds[13].text, "1 mbit/s");
    let d = default_can_speed();
    assert_eq!((d.baud, d.text), (500000, "500 kbit/s"));
    let mut t = CanTrace::new();
    t.insert_frames_to_map(vec![
        InterfacePayload::new(0x300, &[1]),
        InterfacePayload::new(0x100, &[2]),
        InterfacePayload::new(0x200, &[3]),
        InterfacePayload::new(0x100, &[4]),
    ]);
    assert_eq!(t.len(), 3);
    assert_eq!(t.row(0).id, 0x100);
    assert_eq!(t.row(0).data, vec![4]);
    assert_eq!(t.row(1).id, 0x200);
    assert_eq!(t.row(2).id, 0x300);
    t.insert(InterfacePayload::new(0x050, &[9]));
    assert_eq!(t.row(0).id, 0x050);
    assert_eq!(t.len(), 4);
    t.clear();
    assert_eq!(t.len(), 0);
    assert_eq!(changed_bytes(&[1, 2, 3], &[1, 5, 3, 4]), vec![false, true, false]);
    assert_eq!(byte_text(0xA5, true), "10100101");
    assert_eq!(byte_text(0x05, true), "00000101");
    assert_eq!(byte_text(0xA5, false), "A5");
}

#[test]
fn passthru_error_codes_round_trip() {
    for code in 1u32..=0x1A {
        let e = PassthruError::from_raw(code).expect("every J2534 error code has a variant");
        assert_eq!(e.to_raw(), code);
    }
    assert_eq!(PassthruError::from_raw(0), None);
    assert_eq!(PassthruError::from_raw(0x1B), None);
    assert_eq!(PassthruError::ERR_FAILED.to_raw(), 7);
    assert_eq!(PassthruError::from_raw(0x10), Some(PassthruError::ERR_BUFFER_EMPTY));
}

#[test]
fn driver_status_outcomes() {
    assert_eq!(status_result(0), Ok(()));
    assert_eq!(status_result(7), Err(PassthruError::ERR_FAILED));
    assert_eq!(status_result(0x02), Err(PassthruError::ERR_INVALID_CHANNEL_ID));
}

#[test]
fn read_counts_from_driver() {
    assert_eq!(read_count(0x10, 3, 5), Ok(3));
    assert_eq!(read_count(0, 7, 5), Ok(5));
    assert_eq!(read_count(0, 2, 5), Ok(2));
    assert_eq!(read_count(0x10, 0, 5), Err(PassthruError::ERR_BUFFER_EMPTY));
    assert_eq!(read_count(0x09, 4, 5), Err(PassthruError::ERR_TIMEOUT));
}

#[test]
fn flow_control_filter_needs_its_message() {
    assert_eq!(check_filter_request(FLOW_CONTROL_FILTER, false), Err(PassthruError::ERR_INVALID_FILTER_ID));
    assert_eq!(check_filter_request(FLOW_CONTROL_FILTER, true), Ok(()));
    assert_eq!(check_filter_request(1, false), Ok(()));
}

#[test]
fn can_frame_round_trip_through_message() {
    for (id, d, ext) in [(0x7E8u32, vec![0x10u8, 0x20, 0x30], false), (0x18DA_F110, vec![], true), (0x123, vec![1, 2, 3, 4, 5, 6, 7, 8], false)] {
        let f = comserver::CanFrame::new(id, &d, ext);
        let m = f.to_pt_msg();
        let r = comserver::CanFrame::from_byte_array(&m.data[0..m.data_size as usize], ext);
        assert_eq!(r.id, id);
        assert_eq!(r.dlc as usize, d.len());
        assert_eq!(&r.data[..d.len()], &d[..]);
        assert_eq!(r.data, f.data);
        assert_eq!(r.is_extended, ext);
    }
}

#[test]
fn scan_stage_steps() {
    let s0 = stage_step(0);
    assert_eq!(s0.action, StageAction::OpenBus);
    assert_eq!(s0.next_stage, 1);
    assert!(!s0.reset_scan_id);
    assert_eq!(s0.next, Some(DiagScannerMessage::ScanPoll));
    assert_eq!(stage_step(1).action, StageAction::MarkBroadcast);
    assert!(stage_step(1).reset_scan_id);
    assert_eq!(stage_step(2).action, StageAction::ReopenBus);
    assert_eq!(stage_step(3).action, StageAction::CloseBus);
    assert_eq!(stage_step(3).next_stage, 4);
    assert_eq!(stage_step(5).action, StageAction::Nothing);
    assert_eq!(stage_step(5).next_stage, 6);
    assert_eq!(stage_step(6).next, None);
    assert_eq!(stage_step(6).next_stage, 7);
    assert_eq!(stage_step(9).next_stage, 9);
}
