//! CAN frames as exchanged with a J2534 adapter: the frame, its raw byte form
//! (identifier then data) and the pass-thru message that carries it.

use vstd::prelude::*;
use vstd::string::*;
use crate::passthru_msg::{PassthruMsg, id_bytes, id_of, CAN_29BIT_ID, PASSTHRU_DATA_SIZE};
use crate::comm_api::{push_hex_padded4, push_byte_list, byte_list_text};
use crate::text::{push_str, hex_padded};

verus! {

/// A CAN frame with standard or extended (29-bit) addressing.
#[derive(Debug, Copy, Clone)]
pub struct CanFrame {
    pub id: u32,
    pub dlc: u8,
    pub data: [u8; 8],
    pub is_extended: bool,
}

impl CanFrame {
    /// The frame is well formed when its length fits the data buffer.
    pub open spec fn wf(&self) -> bool {
        self.dlc <= 8
    }

    /// The data bytes the frame carries.
    pub open spec fn payload(&self) -> Seq<u8> {
        self.data@.subrange(0, self.dlc as int)
    }

    /// A frame with the given identifier and data (at most eight bytes).
    pub fn new(id: u32, data: &[u8], is_extended: bool) -> (r: Self)
        requires
            data@.len() <= 8,
        ensures
            r.wf(),
            r.id == id,
            r.dlc == data@.len(),
            r.payload() == data@,
            r.is_extended == is_extended,
            forall|i: int| data@.len() <= i < 8 ==> #[trigger] r.data@[i] == 0u8,
    {
        let mut can_data: [u8; 8] = [0; 8];
        let mut i: usize = 0;
        while i < data.len()
            invariant
                data@.len() <= 8,
                i <= data@.len(),
                forall|j: int| 0 <= j < i ==> can_data@[j] == data@[j],
                forall|j: int| data@.len() <= j < 8 ==> can_data@[j] == 0u8,
            decreases data@.len() - i,
        {
            can_data[i] = data[i];
            i = i + 1;
        }
        let r = CanFrame { id, dlc: data.len() as u8, data: can_data, is_extended };
        assert(r.payload() =~= data@);
        r
    }

    /// Renders the frame as `ID: 0x{id:04X} ({kind}) Data: [..]`, where the kind reads
    /// `EXT` for an extended frame and `STD` for a standard one.
    pub fn to_string(&self) -> (r: String)
        requires
            self.wf(),
        ensures
            r@ == "ID: 0x"@ + hex_padded(self.id as nat, 4) + " ("@
                + (if self.is_extended { "EXT"@ } else { "STD"@ }) + ") Data: "@
                + byte_list_text(self.payload()),
    {
        let mut s = String::new();
        proof { reveal_strlit("ID: 0x"); reveal_strlit(" ("); reveal_strlit(") Data: "); }
        push_str(&mut s, "ID: 0x");
        push_hex_padded4(&mut s, self.id);
        push_str(&mut s, " (");
        push_str(&mut s, if self.is_extended { "EXT" } else { "STD" });
        push_str(&mut s, ") Data: ");
        let (head, _tail) = self.data.as_slice().split_at(self.dlc as usize);
        push_byte_list(&mut s, head);
        s
    }

    /// A frame from its raw form: four bytes of identifier (big-endian, whether or not
    /// the frame is extended) followed by up to eight data bytes.
    pub fn from_byte_array(data: &[u8], is_extended: bool) -> (r: Self)
        requires
            4 <= data@.len() <= 12,
        ensures
            r.wf(),
            r.id == id_of(data@),
            r.dlc == data@.len() - 4,
            r.payload() == data@.subrange(4, data@.len() as int),
            forall|i: int| data@.len() - 4 <= i < 8 ==> #[trigger] r.data@[i] == 0u8,
            r.is_extended == is_extended,
    {
        let b0 = data[0];
        let b1 = data[1];
        let b2 = data[2];
        let b3 = data[3];
        let id: u32 = (b0 as u32) << 24 | (b1 as u32) << 16 | (b2 as u32) << 8 | (b3 as u32);
        let (_head, rest) = data.split_at(4);
        assert(rest@ =~= data@.subrange(4, data@.len() as int));
        let f = CanFrame::new(id, rest, is_extended);
        f
    }

    /// The pass-thru message that sends the frame: size four plus the data length, the
    /// extended-identifier flag for an extended frame, the identifier in bytes 0..4 and all
    /// eight data bytes in bytes 4..12. The protocol field is left at zero.
    pub fn to_pt_msg(&self) -> (r: PassthruMsg)
        requires
            self.wf(),
        ensures
            r.wf(),
            r.protocol_id == 0,
            r.data_size == 4 + self.dlc,
            r.tx_flags == if self.is_extended { CAN_29BIT_ID } else { 0 },
            r.data@.subrange(0, 12) == id_bytes(self.id) + self.data@,
    {
        let mut msg = PassthruMsg::new();
        msg.data_size = 4 + self.dlc as u32;
        if self.is_extended {
            msg.tx_flags = CAN_29BIT_ID;
        }
        crate::passthru_msg::u32_to_msg_id(self.id, &mut msg);
        let mut i: usize = 0;
        while i < 8
            invariant
                i <= 8,
                msg.wf(),
                msg.data@.subrange(0, 4) == id_bytes(self.id),
                forall|j: int| 0 <= j < i ==> msg.data@[4 + j] == self.data@[j],
                msg.protocol_id == 0,
                msg.data_size == 4 + self.dlc,
                msg.tx_flags == if self.is_extended { CAN_29BIT_ID } else { 0 },
            decreases 8 - i,
        {
            msg.data.set(4 + i, self.data[i]);
            assert(msg.data@.subrange(0, 4) =~= id_bytes(self.id));
            i = i + 1;
        }
        assert(msg.data@.subrange(0, 12) =~= id_bytes(self.id) + self.data@);
        msg
    }
}

/// The frame a received pass-thru message holds: its first `data_size` bytes in raw
/// form, extended when the receive status carries the 29-bit flag.
pub fn frame_from_pt_msg(msg: &PassthruMsg) -> (r: CanFrame)
    requires
        msg.wf(),
        4 <= msg.data_size <= 12,
    ensures
        r.wf(),
        r.id == id_of(msg.data@),
        r.payload() == msg.data@.subrange(4, msg.data_size as int),
        r.is_extended == (msg.rx_status & CAN_29BIT_ID > 0),
{
    let (raw, _rest) = msg.data.as_slice().split_at(msg.data_size as usize);
    assert(raw@.subrange(4, raw@.len() as int) =~= msg.data@.subrange(4, msg.data_size as int));
    assert(id_of(raw@) == id_of(msg.data@));
    CanFrame::from_byte_array(raw, msg.rx_status & CAN_29BIT_ID > 0)
}

/// The frames a batch of received messages holds, one per message, in order (see
/// `frame_from_pt_msg`).
pub fn frames_from_pt_msgs(msgs: &Vec<PassthruMsg>) -> (r: Vec<CanFrame>)
    requires
        forall|i: int| 0 <= i < msgs@.len() ==> (#[trigger] msgs@[i]).wf() && 4 <= msgs@[i].data_size <= 12,
    ensures
        r@.len() == msgs@.len(),
        forall|i: int| 0 <= i < r@.len() ==> {
            let m = msgs@[i];
            let f = #[trigger] r@[i];
            &&& f.wf()
            &&& f.id == id_of(m.data@)
            &&& f.payload() == m.data@.subrange(4, m.data_size as int)
            &&& f.is_extended == (m.rx_status & CAN_29BIT_ID > 0)
        },
{
    let mut r: Vec<CanFrame> = Vec::new();
    let mut i: usize = 0;
    while i < msgs.len()
        invariant
            i <= msgs@.len(),
            r@.len() == i,
            forall|j: int| 0 <= j < msgs@.len() ==> (#[trigger] msgs@[j]).wf() && 4 <= msgs@[j].data_size <= 12,
            forall|j: int| 0 <= j < i ==> {
                let m = msgs@[j];
                let f = #[trigger] r@[j];
                &&& f.wf()
                &&& f.id == id_of(m.data@)
                &&& f.payload() == m.data@.subrange(4, m.data_size as int)
                &&& f.is_extended == (m.rx_status & CAN_29BIT_ID > 0)
            },
        decreases msgs@.len() - i,
    {
        r.push(frame_from_pt_msg(&msgs[i]));
        i = i + 1;
    }
    r
}

/// A frame written to a message and read back from its first `data_size` bytes is the
/// same frame, when the message reports the same addressing.
pub proof fn lemma_frame_round_trip(f: CanFrame, msg: PassthruMsg)
    requires
        f.wf(),
        msg.wf(),
        msg.data_size == 4 + f.dlc,
        msg.data@.subrange(0, 12) == id_bytes(f.id) + f.data@,
    ensures
        id_of(msg.data@) == f.id,
        msg.data@.subrange(4, msg.data_size as int) == f.payload(),
{
    crate::passthru_msg::lemma_id_round_trip(f.id);
    assert(msg.data@.subrange(0, 4) =~= msg.data@.subrange(0, 12).subrange(0, 4));
    assert(msg.data@.subrange(0, 12).subrange(0, 4) =~= id_bytes(f.id));
    assert(id_of(msg.data@) == id_of(id_bytes(f.id)));
    assert(msg.data@.subrange(4, msg.data_size as int) =~= msg.data@.subrange(0, 12).subrange(4, 4 + f.dlc));
    assert(f.payload() =~= f.data@.subrange(0, f.dlc as int));
}

/// A frame built from an identifier and its data, written to a pass-thru message and read
/// back with `from_byte_array` from the message's first `data_size` bytes, is the same frame:
/// same identifier, length, data (the unused bytes zero) and addressing.
pub proof fn lemma_can_frame_bytes_round_trip(
    id: u32,
    d: Seq<u8>,
    ext: bool,
    f: CanFrame,
    msg: PassthruMsg,
    raw: Seq<u8>,
    r: CanFrame,
)
    requires
        d.len() <= 8,
        f.wf(),
        f.id == id,
        f.dlc == d.len(),
        f.payload() == d,
        f.is_extended == ext,
        forall|i: int| d.len() <= i < 8 ==> #[trigger] f.data@[i] == 0u8,
        msg.wf(),
        msg.data_size == 4 + f.dlc,
        msg.data@.subrange(0, 12) == id_bytes(f.id) + f.data@,
        raw == msg.data@.subrange(0, msg.data_size as int),
        r.wf(),
        r.id == id_of(raw),
        r.dlc == raw.len() - 4,
        r.payload() == raw.subrange(4, raw.len() as int),
        forall|i: int| raw.len() - 4 <= i < 8 ==> #[trigger] r.data@[i] == 0u8,
        r.is_extended == ext,
    ensures
        r.id == id,
        r.dlc == d.len(),
        r.payload() == d,
        r.data@ == f.data@,
        r.is_extended == ext,
{
    lemma_frame_round_trip(f, msg);
    assert(id_of(raw) == id_of(msg.data@));
    assert(raw.subrange(4, raw.len() as int) =~= msg.data@.subrange(4, msg.data_size as int));
    assert forall|i: int| 0 <= i < 8 implies r.data@[i] == f.data@[i] by {
        if i < d.len() {
            assert(r.payload()[i] == r.data@[i]);
            assert(f.payload()[i] == f.data@[i]);
        }
    }
    assert(r.data@ =~= f.data@);
}

} // verus!
