//! The decisions of the J2534 adapter interface that do not touch the driver: the
//! capabilities an installed device offers, the messages that describe a filter, the
//! flags a channel is opened with, and which received messages are kept.

use vstd::prelude::*;
use vstd::string::*;
use crate::comm_api::{CanFrame, Capability, DeviceCapabilities, ISO15765Data};
use crate::passthru::{DrvVersion, PassthruDevice};
use crate::passthru_msg::{
    PassthruMsg, id_bytes, id_of, pt_msg_to_can_frame, pt_msg_to_iso15765, u32_to_msg_id,
    CAN_29BIT_ID, PASSTHRU_DATA_SIZE, PROTOCOL_CAN, PROTOCOL_ISO15765,
};

verus! {

/// The capability a support flag of a device stands for.
pub open spec fn cap_of(b: bool) -> Capability {
    if b { Capability::Yes } else { Capability::No }
}

/// What an installed pass-thru device offers: its name, vendor and library from its entry,
/// its protocol support from its flags (Ethernet is never offered by J2534), and the
/// library and firmware versions that its driver reported, or `Unknown` when the driver
/// could not report them.
pub fn device_capabilities(device: &PassthruDevice, version: Option<DrvVersion>) -> (r: DeviceCapabilities)
    ensures
        r.name@ == device.name@,
        r.vendor@ == device.vendor@,
        r.library_path@ == device.drv_path@,
        r.library_version@ == (match version { Some(v) => v.dll_version@, None => "Unknown"@ }),
        r.device_fw_version@ == (match version { Some(v) => v.fw_version@, None => "Unknown"@ }),
        r.j1850vpw == cap_of(device.j1850vpw),
        r.j1850pwm == cap_of(device.j1850pwm),
        r.can == cap_of(device.can),
        r.iso15765 == cap_of(device.iso15765),
        r.iso9141 == cap_of(device.iso9141),
        r.iso14230 == cap_of(device.iso14230),
        r.ip == Capability::NA,
{
    let version = match version {
        Some(v) => v,
        None => DrvVersion {
            dll_version: String::from_str("Unknown"),
            api_version: String::from_str("Unknown"),
            fw_version: String::from_str("Unknown"),
        },
    };
    DeviceCapabilities {
        name: device.name.clone(),
        library_version: version.dll_version,
        device_fw_version: version.fw_version,
        vendor: device.vendor.clone(),
        library_path: device.drv_path.clone(),
        j1850vpw: Capability::from_bool(device.j1850vpw),
        j1850pwm: Capability::from_bool(device.j1850pwm),
        can: Capability::from_bool(device.can),
        iso15765: Capability::from_bool(device.iso15765),
        iso9141: Capability::from_bool(device.iso9141),
        iso14230: Capability::from_bool(device.iso14230),
        ip: Capability::NA,
    }
}

/// The flags a CAN or ISO-TP channel is opened with: 29-bit identifiers for extended CAN.
pub fn connect_flags(is_ext_can: bool) -> (r: u32)
    ensures
        r == if is_ext_can { CAN_29BIT_ID } else { 0 },
{
    if is_ext_can { CAN_29BIT_ID } else { 0 }
}

/// A message of a filter (its mask, pattern or flow-control identifier): the protocol,
/// four bytes of size, and the identifier in those four bytes; everything else is zero.
pub fn filter_msg(protocol_id: u32, id: u32) -> (r: PassthruMsg)
    ensures
        r.wf(),
        r.protocol_id == protocol_id,
        r.data_size == 4,
        r.tx_flags == 0 && r.rx_status == 0,
        r.content() == id_bytes(id),
        forall|i: int| 4 <= i < PASSTHRU_DATA_SIZE ==> r.data@[i] == 0u8,
{
    let mut msg = PassthruMsg::new();
    msg.protocol_id = protocol_id;
    msg.data_size = 4;
    u32_to_msg_id(id, &mut msg);
    assert(msg.content() =~= id_bytes(id));
    msg
}

/// The messages of a CAN pass or block filter: mask, then pattern.
pub fn can_filter_msgs(id: u32, mask: u32) -> (r: (PassthruMsg, PassthruMsg))
    ensures
        r.0.wf() && r.0.protocol_id == PROTOCOL_CAN && r.0.data_size == 4 && r.0.content() == id_bytes(mask),
        r.1.wf() && r.1.protocol_id == PROTOCOL_CAN && r.1.data_size == 4 && r.1.content() == id_bytes(id),
{
    (filter_msg(PROTOCOL_CAN, mask), filter_msg(PROTOCOL_CAN, id))
}

/// The messages of an ISO-TP flow-control filter: mask, pattern, then the identifier the
/// flow-control frames are sent to.
pub fn iso15765_filter_msgs(id: u32, mask: u32, flow_control_id: u32) -> (r: (PassthruMsg, PassthruMsg, PassthruMsg))
    ensures
        r.0.wf() && r.0.protocol_id == PROTOCOL_ISO15765 && r.0.data_size == 4 && r.0.content() == id_bytes(mask),
        r.1.wf() && r.1.protocol_id == PROTOCOL_ISO15765 && r.1.data_size == 4 && r.1.content() == id_bytes(id),
        r.2.wf() && r.2.protocol_id == PROTOCOL_ISO15765 && r.2.data_size == 4
            && r.2.content() == id_bytes(flow_control_id),
{
    (filter_msg(PROTOCOL_ISO15765, mask), filter_msg(PROTOCOL_ISO15765, id), filter_msg(PROTOCOL_ISO15765, flow_control_id))
}

/// A message that an ISO-TP channel delivers: ISO 15765 with at least the identifier.
pub open spec fn iso15765_msg_readable(m: PassthruMsg) -> bool {
    &&& m.wf()
    &&& m.protocol_id == PROTOCOL_ISO15765
    &&& 4 <= m.data_size <= PASSTHRU_DATA_SIZE
}

/// The payloads that a batch of received ISO-TP messages adds: the messages with data
/// beyond the identifier, in order (messages without data only acknowledge a send).
pub open spec fn iso15765_kept(msgs: Seq<PassthruMsg>) -> Seq<PassthruMsg>
    decreases msgs.len(),
{
    if msgs.len() == 0 {
        Seq::empty()
    } else if msgs.last().data_size > 4 {
        iso15765_kept(msgs.drop_last()).push(msgs.last())
    } else {
        iso15765_kept(msgs.drop_last())
    }
}

/// A received message's payload is the identifier and the data after it.
pub open spec fn payload_of(m: PassthruMsg, d: ISO15765Data) -> bool {
    &&& d.id == id_of(m.data@)
    &&& d.data@ == m.data@.subrange(4, m.data_size as int)
    &&& !d.pad_frame
    &&& !d.ext_addressing
}

/// Adds the payloads of a batch of received ISO-TP messages to `res`, skipping the ones
/// without data, and tells whether `max_msgs` payloads have now been read.
pub fn collect_iso15765_packets(res: &mut Vec<ISO15765Data>, msgs: &Vec<PassthruMsg>, max_msgs: usize) -> (done: bool)
    requires
        forall|i: int| 0 <= i < msgs@.len() ==> iso15765_msg_readable(#[trigger] msgs@[i]),
    ensures
        final(res)@.len() == old(res)@.len() + iso15765_kept(msgs@).len(),
        forall|i: int| 0 <= i < old(res)@.len() ==> #[trigger] final(res)@[i] == old(res)@[i],
        forall|k: int| 0 <= k < iso15765_kept(msgs@).len() ==>
            payload_of(iso15765_kept(msgs@)[k], #[trigger] final(res)@[old(res)@.len() + k]),
        done == (final(res)@.len() == max_msgs),
{
    let ghost start = res@;
    let mut i: usize = 0;
    while i < msgs.len()
        invariant
            i <= msgs@.len(),
            forall|j: int| 0 <= j < msgs@.len() ==> iso15765_msg_readable(#[trigger] msgs@[j]),
            res@.len() == start.len() + iso15765_kept(msgs@.subrange(0, i as int)).len(),
            forall|j: int| 0 <= j < start.len() ==> #[trigger] res@[j] == start[j],
            forall|k: int| 0 <= k < iso15765_kept(msgs@.subrange(0, i as int)).len() ==>
                payload_of(iso15765_kept(msgs@.subrange(0, i as int))[k], #[trigger] res@[start.len() + k]),
        decreases msgs@.len() - i,
    {
        let ghost prev = msgs@.subrange(0, i as int);
        let ghost next = msgs@.subrange(0, i + 1);
        assert(next.drop_last() =~= prev);
        assert(next.last() == msgs@[i as int]);
        let m = &msgs[i];
        let d = pt_msg_to_iso15765(m);
        match d {
            Some(p) => {
                if p.data.len() > 0 {
                    res.push(p);
                }
            },
            None => {},
        }
        i = i + 1;
    }
    assert(msgs@.subrange(0, msgs@.len() as int) =~= msgs@);
    res.len() == max_msgs
}

/// A message that a CAN channel delivers: CAN with at least the identifier.
pub open spec fn can_msg_readable(m: PassthruMsg) -> bool {
    &&& m.wf()
    &&& m.protocol_id == PROTOCOL_CAN
    &&& 4 <= m.data_size <= PASSTHRU_DATA_SIZE
}

/// The frames a batch of received CAN messages holds, one per message, in order; data
/// beyond eight bytes is dropped.
pub fn can_frames_from_msgs(msgs: &Vec<PassthruMsg>) -> (r: Vec<CanFrame>)
    requires
        forall|i: int| 0 <= i < msgs@.len() ==> can_msg_readable(#[trigger] msgs@[i]),
    ensures
        r@.len() == msgs@.len(),
        forall|i: int| 0 <= i < r@.len() ==> {
            let m = msgs@[i];
            let f = #[trigger] r@[i];
            &&& f.wf()
            &&& f.id == id_of(m.data@)
            &&& f.dlc as int == if m.data_size - 4 < 8 { m.data_size - 4 } else { 8 }
            &&& f.payload() == m.data@.subrange(4, 4 + f.dlc)
        },
{
    let mut r: Vec<CanFrame> = Vec::new();
    let mut i: usize = 0;
    while i < msgs.len()
        invariant
            i <= msgs@.len(),
            r@.len() == i,
            forall|j: int| 0 <= j < msgs@.len() ==> can_msg_readable(#[trigger] msgs@[j]),
            forall|j: int| 0 <= j < i ==> {
                let m = msgs@[j];
                let f = #[trigger] r@[j];
                &&& f.wf()
                &&& f.id == id_of(m.data@)
                &&& f.dlc as int == if m.data_size - 4 < 8 { m.data_size - 4 } else { 8 }
                &&& f.payload() == m.data@.subrange(4, 4 + f.dlc)
            },
        decreases msgs@.len() - i,
    {
        let m = &msgs[i];
        match pt_msg_to_can_frame(m) {
            Some(f) => r.push(f),
            None => {
                assert(false);
            },
        }
        i = i + 1;
    }
    r
}

} // verus!
