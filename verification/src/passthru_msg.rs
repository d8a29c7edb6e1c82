//! SAE J2534 pass-thru messages and their conversion to and from CAN frames and
//! ISO-TP payloads. A message carries the 4-byte identifier, big-endian, in front of
//! its data.

use vstd::prelude::*;
use crate::comm_api::{CanFrame, ISO15765Data};
use crate::bytes::copy_range;

verus! {

/// The size of the data buffer of a pass-thru message.
pub const PASSTHRU_DATA_SIZE: usize = 4128;

/// Protocol identifier of raw CAN.
pub const PROTOCOL_CAN: u32 = 5;

/// Protocol identifier of ISO 15765 (ISO-TP).
pub const PROTOCOL_ISO15765: u32 = 6;

/// Transmit flag: pad ISO-TP frames to eight bytes.
pub const TX_ISO15765_FRAME_PAD: u32 = 0x40;

/// Transmit / receive / connect flag: 29-bit CAN identifiers.
pub const CAN_29BIT_ID: u32 = 0x100;

/// A J2534 message as exchanged with an adapter driver.
#[derive(Debug, Clone)]
pub struct PassthruMsg {
    pub protocol_id: u32,
    pub rx_status: u32,
    pub tx_flags: u32,
    pub timestamp: u32,
    pub data_size: u32,
    pub extra_data_index: u32,
    pub data: Vec<u8>,
}

impl PassthruMsg {
    /// The message is well formed when its buffer has the standard size.
    pub open spec fn wf(&self) -> bool {
        self.data@.len() == PASSTHRU_DATA_SIZE
    }

    /// The bytes the message carries: the first `data_size` bytes of its buffer.
    pub open spec fn content(&self) -> Seq<u8> {
        self.data@.subrange(0, self.data_size as int)
    }

    /// An empty message: every field zero and a zeroed buffer.
    pub fn new() -> (r: Self)
        ensures
            r.wf(),
            r.protocol_id == 0 && r.rx_status == 0 && r.tx_flags == 0,
            r.timestamp == 0 && r.data_size == 0 && r.extra_data_index == 0,
            forall|i: int| 0 <= i < PASSTHRU_DATA_SIZE ==> r.data@[i] == 0u8,
    {
        let mut data: Vec<u8> = Vec::new();
        let mut i: usize = 0;
        while i < PASSTHRU_DATA_SIZE
            invariant
                i <= PASSTHRU_DATA_SIZE,
                data@.len() == i,
                forall|j: int| 0 <= j < i ==> data@[j] == 0u8,
            decreases PASSTHRU_DATA_SIZE - i,
        {
            data.push(0);
            i = i + 1;
        }
        PassthruMsg { protocol_id: 0, rx_status: 0, tx_flags: 0, timestamp: 0, data_size: 0, extra_data_index: 0, data }
    }
}

/// The identifier held in the first four bytes of a buffer, big-endian.
pub open spec fn id_of(data: Seq<u8>) -> u32 {
    be_u32(data[0], data[1], data[2], data[3])
}

/// Four bytes as a big-endian value.
pub open spec fn be_u32(b0: u8, b1: u8, b2: u8, b3: u8) -> u32 {
    (b0 as u32) << 24 | (b1 as u32) << 16 | (b2 as u32) << 8 | (b3 as u32)
}

/// The four big-endian bytes of an identifier.
pub open spec fn id_bytes(i: u32) -> Seq<u8> {
    seq![(i >> 24) as u8, (i >> 16) as u8, (i >> 8) as u8, i as u8]
}

/// Reads the identifier from the first four bytes of a message.
pub fn msg_id_to_u32(m: &PassthruMsg) -> (r: u32)
    requires
        m.wf(),
    ensures
        r == id_of(m.data@),
{
    let b0 = m.data[0];
    let b1 = m.data[1];
    let b2 = m.data[2];
    let b3 = m.data[3];
    (b0 as u32) << 24 | (b1 as u32) << 16 | (b2 as u32) << 8 | b3 as u32
}

/// Writes an identifier into the first four bytes of a message, big-endian; every other
/// byte and field stays as it was.
pub fn u32_to_msg_id(i: u32, msg: &mut PassthruMsg)
    requires
        old(msg).wf(),
    ensures
        final(msg).wf(),
        final(msg).data@ == id_bytes(i) + old(msg).data@.subrange(4, PASSTHRU_DATA_SIZE as int),
        final(msg).protocol_id == old(msg).protocol_id,
        final(msg).rx_status == old(msg).rx_status,
        final(msg).tx_flags == old(msg).tx_flags,
        final(msg).data_size == old(msg).data_size,
        final(msg).timestamp == old(msg).timestamp,
        final(msg).extra_data_index == old(msg).extra_data_index,
{
    let b0 = (i >> 24) as u8;
    let b1 = (i >> 16) as u8;
    let b2 = (i >> 8) as u8;
    let b3 = i as u8;
    msg.data.set(0, b0);
    msg.data.set(1, b1);
    msg.data.set(2, b2);
    msg.data.set(3, b3);
    assert(msg.data@ =~= id_bytes(i) + old(msg).data@.subrange(4, PASSTHRU_DATA_SIZE as int));
}

/// Reading back an identifier that was written gives the identifier.
pub proof fn lemma_id_round_trip(i: u32)
    ensures
        id_of(id_bytes(i)) == i,
{
    assert(be_u32((i >> 24) as u8, (i >> 16) as u8, (i >> 8) as u8, i as u8) == i) by (bit_vector);
}

/// Copies bytes into a message's buffer from position 4 on.
fn copy_into(msg: &mut PassthruMsg, src: &[u8])
    requires
        old(msg).wf(),
        4 + src@.len() <= PASSTHRU_DATA_SIZE,
    ensures
        final(msg).wf(),
        final(msg).data@ == old(msg).data@.subrange(0, 4) + src@
            + old(msg).data@.subrange(4 + src@.len() as int, PASSTHRU_DATA_SIZE as int),
        final(msg).protocol_id == old(msg).protocol_id,
        final(msg).rx_status == old(msg).rx_status,
        final(msg).tx_flags == old(msg).tx_flags,
        final(msg).data_size == old(msg).data_size,
{
    let mut i: usize = 0;
    while i < src.len()
        invariant
            i <= src@.len(),
            4 + src@.len() <= PASSTHRU_DATA_SIZE,
            msg.wf(),
            old(msg).wf(),
            msg.data@ == old(msg).data@.subrange(0, 4) + src@.subrange(0, i as int)
                + old(msg).data@.subrange(4 + i, PASSTHRU_DATA_SIZE as int),
            msg.protocol_id == old(msg).protocol_id,
            msg.rx_status == old(msg).rx_status,
            msg.tx_flags == old(msg).tx_flags,
            msg.data_size == old(msg).data_size,
        decreases src@.len() - i,
    {
        msg.data.set(4 + i, src[i]);
        assert(msg.data@ =~= old(msg).data@.subrange(0, 4) + src@.subrange(0, i + 1)
            + old(msg).data@.subrange(4 + i + 1, PASSTHRU_DATA_SIZE as int));
        i = i + 1;
    }
    assert(src@.subrange(0, src@.len() as int) =~= src@);
}

/// The message that sends a CAN frame: protocol CAN, the identifier then the frame's data.
pub fn can_frame_to_pt_msg(cf: &CanFrame) -> (r: PassthruMsg)
    requires
        cf.wf(),
    ensures
        r.wf(),
        r.protocol_id == PROTOCOL_CAN,
        r.tx_flags == 0,
        r.data_size == cf.dlc + 4,
        r.content() == id_bytes(cf.id) + cf.payload(),
{
    let mut msg = PassthruMsg::new();
    msg.protocol_id = PROTOCOL_CAN;
    msg.data_size = cf.dlc as u32 + 4;
    u32_to_msg_id(cf.id, &mut msg);
    copy_into(&mut msg, cf.get_data());
    assert(msg.content() =~= id_bytes(cf.id) + cf.payload());
    msg
}

/// The CAN frame a received message holds: none unless the message is CAN with at least
/// the identifier; data beyond eight bytes is dropped.
pub fn pt_msg_to_can_frame(msg: &PassthruMsg) -> (r: Option<CanFrame>)
    requires
        msg.wf(),
        msg.data_size <= PASSTHRU_DATA_SIZE,
    ensures
        (msg.protocol_id != PROTOCOL_CAN || msg.data_size < 4) ==> r is None,
        (msg.protocol_id == PROTOCOL_CAN && msg.data_size >= 4) ==> (r matches Some(f) && f.wf()
            && f.id == id_of(msg.data@)
            && f.payload() == msg.data@.subrange(4, 4 + f.dlc)
            && f.dlc as int == if msg.data_size - 4 < 8 { msg.data_size - 4 } else { 8 }),
{
    if msg.protocol_id != PROTOCOL_CAN || msg.data_size < 4 {
        return None;
    }
    let data = copy_range(msg.data.as_slice(), 4, msg.data_size as usize);
    Some(CanFrame::new(msg_id_to_u32(msg), data.as_slice()))
}

/// The ISO-TP payload a received message holds: none unless the message is ISO 15765
/// with at least the identifier.
pub fn pt_msg_to_iso15765(msg: &PassthruMsg) -> (r: Option<ISO15765Data>)
    requires
        msg.wf(),
        msg.data_size <= PASSTHRU_DATA_SIZE,
    ensures
        (msg.protocol_id != PROTOCOL_ISO15765 || msg.data_size < 4) ==> r is None,
        (msg.protocol_id == PROTOCOL_ISO15765 && msg.data_size >= 4) ==> (r matches Some(d)
            && d.id == id_of(msg.data@)
            && d.data@ == msg.data@.subrange(4, msg.data_size as int)
            && !d.pad_frame && !d.ext_addressing),
{
    if msg.protocol_id != PROTOCOL_ISO15765 || msg.data_size < 4 {
        return None;
    }
    Some(ISO15765Data {
        id: msg_id_to_u32(msg),
        data: copy_range(msg.data.as_slice(), 4, msg.data_size as usize),
        pad_frame: false,
        ext_addressing: false,
    })
}

/// The message that sends an ISO-TP payload: protocol ISO 15765, the identifier then the
/// payload, with the padding flag when the payload asks for padding.
pub fn iso15765_to_pt_msg(d: &ISO15765Data) -> (r: PassthruMsg)
    requires
        4 + d.data@.len() <= PASSTHRU_DATA_SIZE,
    ensures
        r.wf(),
        r.protocol_id == PROTOCOL_ISO15765,
        r.tx_flags == if d.pad_frame { TX_ISO15765_FRAME_PAD } else { 0 },
        r.data_size == d.data@.len() + 4,
        r.content() == id_bytes(d.id) + d.data@,
{
    let mut msg = PassthruMsg::new();
    msg.protocol_id = PROTOCOL_ISO15765;
    msg.data_size = d.data.len() as u32 + 4;
    u32_to_msg_id(d.id, &mut msg);
    copy_into(&mut msg, d.data.as_slice());
    if d.pad_frame {
        msg.tx_flags = TX_ISO15765_FRAME_PAD;
    }
    assert(msg.content() =~= id_bytes(d.id) + d.data@);
    msg
}

/// A CAN frame sent as a message and read back is the same frame.
pub proof fn lemma_can_frame_round_trip(cf: CanFrame, msg: PassthruMsg)
    requires
        cf.wf(),
        msg.wf(),
        msg.protocol_id == PROTOCOL_CAN,
        msg.data_size == cf.dlc + 4,
        msg.content() == id_bytes(cf.id) + cf.payload(),
    ensures
        id_of(msg.data@) == cf.id,
        msg.data@.subrange(4, 4 + cf.dlc) == cf.payload(),
{
    lemma_id_round_trip(cf.id);
    assert(msg.data@.subrange(0, 4) =~= msg.content().subrange(0, 4));
    assert(msg.content().subrange(0, 4) =~= id_bytes(cf.id));
    assert(msg.data@[0] == id_bytes(cf.id)[0] && msg.data@[1] == id_bytes(cf.id)[1]);
    assert(msg.data@[2] == id_bytes(cf.id)[2] && msg.data@[3] == id_bytes(cf.id)[3]);
    assert(msg.data@.subrange(4, 4 + cf.dlc) =~= msg.content().subrange(4, 4 + cf.dlc));
}

/// An ISO-TP payload sent as a message and read back has the same identifier and data.
pub proof fn lemma_iso15765_round_trip(d: ISO15765Data, msg: PassthruMsg)
    requires
        4 + d.data@.len() <= PASSTHRU_DATA_SIZE,
        msg.wf(),
        msg.protocol_id == PROTOCOL_ISO15765,
        msg.data_size == d.data@.len() + 4,
        msg.content() == id_bytes(d.id) + d.data@,
    ensures
        id_of(msg.data@) == d.id,
        msg.data@.subrange(4, msg.data_size as int) == d.data@,
{
    lemma_id_round_trip(d.id);
    assert(msg.data@.subrange(0, 4) =~= msg.content().subrange(0, 4));
    assert(msg.content().subrange(0, 4) =~= id_bytes(d.id));
    assert(msg.data@[0] == id_bytes(d.id)[0] && msg.data@[1] == id_bytes(d.id)[1]);
    assert(msg.data@[2] == id_bytes(d.id)[2] && msg.data@[3] == id_bytes(d.id)[3]);
    assert(msg.data@.subrange(4, msg.data_size as int) =~= msg.content().subrange(4, msg.data_size as int));
}

} // verus!
