//! Values exchanged with a diagnostic adapter: CAN frames, ISO-TP payloads,
//! filters, errors and the capabilities that an adapter reports.

use vstd::prelude::*;
use vstd::string::*;
use crate::text::{push_str, push_hex2, push_hex_min, push_decimal, hex2, hex_min, hex_padded, decimal};

verus! {

/// A classic CAN frame: an identifier and up to eight data bytes.
#[derive(Debug, Copy, Clone, Default)]
pub struct CanFrame {
    pub id: u32,
    pub dlc: u8,
    pub data: [u8; 8],
}

impl CanFrame {
    /// The frame is well formed when its length fits the data buffer.
    pub open spec fn wf(&self) -> bool {
        self.dlc <= 8
    }

    /// The data bytes that the frame carries.
    pub open spec fn payload(&self) -> Seq<u8> {
        self.data@.subrange(0, self.dlc as int)
    }

    /// All eight bytes of the data buffer, including the unused tail.
    pub open spec fn buffer(&self) -> Seq<u8> {
        self.data@
    }

    /// Returns the data bytes of the frame (the first `dlc` bytes).
    pub fn get_data(&self) -> (r: &[u8])
        requires
            self.wf(),
        ensures
            r@ == self.payload(),
    {
        let s: &[u8] = self.data.as_slice();
        slice_prefix(s, self.dlc as usize)
    }

    /// Builds a frame from an identifier and data; data beyond eight bytes is dropped.
    pub fn new(id: u32, data: &[u8]) -> (r: Self)
        ensures
            r.wf(),
            r.id == id,
            r.dlc as int == if data@.len() < 8 { data@.len() as int } else { 8 },
            r.payload() == data@.subrange(0, r.dlc as int),
            forall|i: int| r.dlc <= i < 8 ==> #[trigger] r.buffer()[i] == 0u8,
    {
        let dlc: usize = if data.len() < 8 { data.len() } else { 8 };
        let mut can_data: [u8; 8] = [0; 8];
        let mut i: usize = 0;
        while i < dlc
            invariant
                dlc <= 8,
                dlc <= data@.len(),
                i <= dlc,
                forall|j: int| 0 <= j < i ==> can_data@[j] == data@[j],
                forall|j: int| dlc <= j < 8 ==> can_data@[j] == 0u8,
            decreases dlc - i,
        {
            can_data[i] = data[i];
            i = i + 1;
        }
        let r = CanFrame { id, dlc: dlc as u8, data: can_data };
        assert(r.payload() =~= data@.subrange(0, dlc as int));
        r
    }

    /// Renders the frame as `ID: 0x{id:04X} Data: [..]` with each byte in upper-case hex.
    pub fn to_string(&self) -> (r: String)
        requires
            self.wf(),
        ensures
            r@ == can_frame_text(self.id, self.payload()),
    {
        let mut s = String::new();
        proof { reveal_strlit("ID: 0x"); }
        push_str(&mut s, "ID: 0x");
        push_hex_padded4(&mut s, self.id);
        proof { reveal_strlit(" Data: "); }
        push_str(&mut s, " Data: ");
        push_byte_list(&mut s, self.get_data());
        s
    }
}

/// The rendering of a frame: identifier as at least four hex digits, then its data bytes.
pub open spec fn can_frame_text(id: u32, payload: Seq<u8>) -> Seq<char> {
    "ID: 0x"@ + hex_padded(id as nat, 4) + " Data: "@ + byte_list_text(payload)
}

/// A list of bytes written as `[AA, BB, ..]` (the `{:02X?}` form of a slice).
pub open spec fn byte_list_text(bytes: Seq<u8>) -> Seq<char> {
    seq!['['] + byte_list_items(bytes) + seq![']']
}

/// The items of a byte list, separated by `, `.
pub open spec fn byte_list_items(bytes: Seq<u8>) -> Seq<char>
    decreases bytes.len(),
{
    if bytes.len() == 0 {
        Seq::empty()
    } else if bytes.len() == 1 {
        hex2(bytes[0])
    } else {
        byte_list_items(bytes.drop_last()) + seq![',', ' '] + hex2(bytes.last())
    }
}

/// Takes the first `n` elements of a slice.
fn slice_prefix(s: &[u8], n: usize) -> (r: &[u8])
    requires
        n <= s@.len(),
    ensures
        r@ == s@.subrange(0, n as int),
{
    let (a, _b) = s.split_at(n);
    a
}

/// Appends a list of bytes as `[AA, BB, ..]`.
pub fn push_byte_list(s: &mut String, bytes: &[u8])
    ensures
        final(s)@ == old(s)@ + byte_list_text(bytes@),
{
    proof { reveal_strlit("["); reveal_strlit("]"); reveal_strlit(", "); }
    push_str(s, "[");
    let ghost start = s@;
    let mut i: usize = 0;
    while i < bytes.len()
        invariant
            i <= bytes@.len(),
            s@ == start + byte_list_items(bytes@.subrange(0, i as int)),
        decreases bytes@.len() - i,
    {
        let ghost before = s@;
        proof { reveal_strlit(", "); }
        if i > 0 {
            push_str(s, ", ");
        }
        push_hex2(s, bytes[i]);
        proof {
            let prev = bytes@.subrange(0, i as int);
            let next = bytes@.subrange(0, i + 1);
            assert(next.drop_last() =~= prev);
            assert(next.last() == bytes@[i as int]);
            if i == 0 {
                assert(next =~= seq![bytes@[0]]);
                assert(byte_list_items(prev) =~= Seq::<char>::empty());
                assert(s@ =~= start + byte_list_items(next));
            } else {
                assert(byte_list_items(next) == byte_list_items(prev) + seq![',', ' '] + hex2(bytes@[i as int]));
                assert(s@ =~= before + seq![',', ' '] + hex2(bytes@[i as int]));
                assert(s@ =~= start + byte_list_items(next));
            }
        }
        i = i + 1;
    }
    assert(bytes@.subrange(0, bytes@.len() as int) =~= bytes@);
    push_str(s, "]");
    assert(start == old(s)@ + seq!['[']);
}

/// Appends a value as upper-case hex padded with zeros to at least four digits.
pub fn push_hex_padded4(s: &mut String, n: u32)
    ensures
        final(s)@ == old(s)@ + hex_padded(n as nat, 4),
{
    proof { reveal_strlit("0"); reveal_strlit("00"); reveal_strlit("000"); }
    let ghost digits = hex_min(n as nat);
    proof { lemma_hex_min_len_bounds(n as nat); }
    if n < 0x10 {
        push_str(s, "000");
        assert(Seq::new(3, |i: int| '0') =~= "000"@);
    } else if n < 0x100 {
        push_str(s, "00");
        assert(Seq::new(2, |i: int| '0') =~= "00"@);
    } else if n < 0x1000 {
        push_str(s, "0");
        assert(Seq::new(1, |i: int| '0') =~= "0"@);
    }
    let ghost mid = s@;
    push_hex_min(s, n as u64);
    proof {
        if n < 0x1000 {
            assert(mid + digits == old(s)@ + (mid.subrange(old(s)@.len() as int, mid.len() as int) + digits));
        }
        assert(s@ =~= old(s)@ + hex_padded(n as nat, 4));
    }
}

/// Lengths of the hexadecimal rendering of a value.
pub proof fn lemma_hex_min_len_bounds(n: nat)
    ensures
        hex_min(n).len() >= 1,
        n < 0x10 ==> hex_min(n).len() == 1,
        0x10 <= n < 0x100 ==> hex_min(n).len() == 2,
        0x100 <= n < 0x1000 ==> hex_min(n).len() == 3,
        n >= 0x1000 ==> hex_min(n).len() >= 4,
    decreases n,
{
    if n >= 16 {
        lemma_hex_min_len_bounds(n / 16);
    }
}

/// An ISO-TP (ISO 15765) payload addressed to or received from an ECU.
#[derive(Clone, Debug)]
pub struct ISO15765Data {
    pub id: u32,
    pub data: Vec<u8>,
    pub pad_frame: bool,
    pub ext_addressing: bool,
}

impl ISO15765Data {
    /// Renders the payload as `ISO15765: ID: 0x{id:04X}, Payload: [..]`.
    pub fn to_string(&self) -> (r: String)
        ensures
            r@ == "ISO15765: ID: 0x"@ + hex_padded(self.id as nat, 4) + ", Payload: "@
                + byte_list_text(self.data@),
    {
        let mut s = String::new();
        proof { reveal_strlit("ISO15765: ID: 0x"); reveal_strlit(", Payload: "); }
        push_str(&mut s, "ISO15765: ID: 0x");
        push_hex_padded4(&mut s, self.id);
        push_str(&mut s, ", Payload: ");
        push_byte_list(&mut s, self.data.as_slice());
        s
    }
}

/// ISO-TP addressing and flow-control settings.
#[derive(Clone, Copy, Debug)]
pub struct ISO15765Config {
    pub send_id: u32,
    pub recv_id: u32,
    pub block_size: u32,
    pub sep_time: u32,
}

/// A message filter on an adapter channel.
#[derive(Debug, Copy, Clone, PartialEq, Eq)]
pub enum FilterType {
    Pass { id: u32, mask: u32 },
    Block { id: u32, mask: u32 },
    IsoTP { id: u32, mask: u32, fc: u32 },
}

/// An error reported by an adapter or its driver.
#[derive(Debug, Clone)]
pub struct ComServerError {
    pub err_code: u32,
    pub err_desc: String,
}

/// The rendering of an adapter error: `Error code {code} ({desc})`.
pub open spec fn com_server_error_text(code: u32, desc: Seq<char>) -> Seq<char> {
    "Error code "@ + decimal(code as nat) + " ("@ + desc + ")"@
}

impl ComServerError {
    /// Renders the error as `Error code {code} ({desc})`.
    pub fn to_string(&self) -> (r: String)
        ensures
            r@ == com_server_error_text(self.err_code, self.err_desc@),
    {
        let mut s = String::new();
        proof { reveal_strlit("Error code "); reveal_strlit(" ("); reveal_strlit(")"); }
        push_str(&mut s, "Error code ");
        push_decimal(&mut s, self.err_code as u64);
        push_str(&mut s, " (");
        push_str(&mut s, self.err_desc.as_str());
        push_str(&mut s, ")");
        s
    }
}

/// Whether an adapter supports a protocol.
#[derive(Debug, Copy, Clone, PartialEq, Eq, Structural, PartialOrd, Ord, Hash)]
pub enum Capability {
    /// The device supports the capability
    Yes,
    /// The device does not support the capability
    No,
    /// The API the device uses does not support the capability
    NA,
}

impl Capability {
    /// `Yes` for true, `No` for false.
    pub fn from_bool(b: bool) -> (r: Self)
        ensures
            r == (if b { Capability::Yes } else { Capability::No }),
    {
        if b { Capability::Yes } else { Capability::No }
    }
}

/// What an adapter is and which protocols it supports.
#[derive(Clone, Debug)]
pub struct DeviceCapabilities {
    pub name: String,
    pub vendor: String,
    pub library_path: String,
    pub device_fw_version: String,
    pub library_version: String,
    /// Supports J1850VPW
    pub j1850vpw: Capability,
    /// Supports J1850PWM
    pub j1850pwm: Capability,
    /// Supports regular CAN
    pub can: Capability,
    /// Supports ISO15765 (ISO-TP)
    pub iso15765: Capability,
    /// Supports K-Line OBD ISO9141
    pub iso9141: Capability,
    /// Supports K-Line KWP2000 ISO14230
    pub iso14230: Capability,
    /// Supports Ethernet DoIP
    pub ip: Capability,
}

impl DeviceCapabilities {
    pub fn get_name(&self) -> (r: String)
        ensures
            r@ == self.name@,
    {
        self.name.clone()
    }

    pub fn get_vendor(&self) -> (r: String)
        ensures
            r@ == self.vendor@,
    {
        self.vendor.clone()
    }

    pub fn get_lib_path(&self) -> (r: String)
        ensures
            r@ == self.library_path@,
    {
        self.library_path.clone()
    }

    /// The adapter's CAN support.
    pub fn support_can_fd(&self) -> (r: Capability)
        ensures
            r == self.can,
    {
        self.can
    }

    pub fn supports_iso15765(&self) -> (r: Capability)
        ensures
            r == self.iso15765,
    {
        self.iso15765
    }

    pub fn supports_j1850pwm(&self) -> (r: Capability)
        ensures
            r == self.j1850pwm,
    {
        self.j1850pwm
    }

    pub fn supports_j1850vpw(&self) -> (r: Capability)
        ensures
            r == self.j1850vpw,
    {
        self.j1850vpw
    }

    pub fn supports_iso9141(&self) -> (r: Capability)
        ensures
            r == self.iso9141,
    {
        self.iso9141
    }

    pub fn supports_iso14230(&self) -> (r: Capability)
        ensures
            r == self.iso14230,
    {
        self.iso14230
    }

    pub fn supports_doip(&self) -> (r: Capability)
        ensures
            r == self.ip,
    {
        self.ip
    }

    pub fn get_device_fw_version(&self) -> (r: String)
        ensures
            r@ == self.device_fw_version@,
    {
        self.device_fw_version.clone()
    }

    pub fn get_library_version(&self) -> (r: String)
        ensures
            r@ == self.library_version@,
    {
        self.library_version.clone()
    }
}

/// One round of collecting ISO-TP replies after a request: every message with data is a
/// first frame and extends the wait by ten milliseconds; every message without data is a
/// reply and is kept. Once `max_resp` replies are kept (when `max_resp` is not zero) the
/// wait is ended by returning a timeout of zero. Returns the new timeout.
pub fn collect_iso15765_replies(
    timeout_ms: u128,
    payloads: &mut Vec<ISO15765Data>,
    msgs: Vec<ISO15765Data>,
    max_resp: usize,
) -> (new_timeout: u128)
    requires
        timeout_ms + 10 * msgs@.len() <= u128::MAX,
        old(payloads)@.len() + msgs@.len() <= usize::MAX,
    ensures
        final(payloads)@ == old(payloads)@ + empty_replies(msgs@),
        new_timeout == collect_timeout(timeout_ms as int, old(payloads)@.len() as int, msgs@, max_resp as int),
{
    let mut timeout = timeout_ms;
    let mut rest = msgs;
    let ghost start = payloads@;
    let ghost ms = rest@;
    let mut i: usize = 0;
    while rest.len() > 0
        invariant
            i <= ms.len(),
            rest@ == ms.subrange(i as int, ms.len() as int),
            timeout_ms + 10 * ms.len() <= u128::MAX,
            start.len() + ms.len() <= usize::MAX,
            payloads@ == start + empty_replies(ms.subrange(0, i as int)),
            timeout == collect_timeout(timeout_ms as int, start.len() as int, ms.subrange(0, i as int), max_resp as int),
            timeout <= timeout_ms + 10 * i,
        decreases rest@.len(),
    {
        let msg = rest.remove(0);
        proof {
            let prev = ms.subrange(0, i as int);
            let next = ms.subrange(0, i + 1);
            assert(next.drop_last() =~= prev);
            assert(msg == ms[i as int]);
            assert(next.last() == ms[i as int]);
            lemma_empty_replies_len(prev);
        }
        if msg.data.len() > 0 {
            timeout = timeout + 10;
        } else {
            payloads.push(msg);
            if max_resp != 0 && payloads.len() >= max_resp {
                timeout = 0;
            }
        }
        proof {
            let next = ms.subrange(0, i + 1);
            assert(payloads@ =~= start + empty_replies(next));
            assert(rest@ =~= ms.subrange(i + 1, ms.len() as int));
        }
        i = i + 1;
    }
    assert(ms.subrange(0, ms.len() as int) =~= ms);
    timeout
}

/// The messages that carry no data, in order.
pub open spec fn empty_replies(msgs: Seq<ISO15765Data>) -> Seq<ISO15765Data>
    decreases msgs.len(),
{
    if msgs.len() == 0 {
        Seq::empty()
    } else if msgs.last().data@.len() == 0 {
        empty_replies(msgs.drop_last()).push(msgs.last())
    } else {
        empty_replies(msgs.drop_last())
    }
}

/// The timeout after a round of collection, starting from `timeout` with `kept` replies already kept.
pub open spec fn collect_timeout(timeout: int, kept: int, msgs: Seq<ISO15765Data>, max_resp: int) -> int
    decreases msgs.len(),
{
    if msgs.len() == 0 {
        timeout
    } else {
        let before = collect_timeout(timeout, kept, msgs.drop_last(), max_resp);
        if msgs.last().data@.len() > 0 {
            before + 10
        } else if max_resp != 0 && kept + empty_replies(msgs).len() >= max_resp {
            0
        } else {
            before
        }
    }
}

/// Collecting two rounds of messages one after the other keeps the same replies, in the
/// same order, as collecting both rounds' messages at once.
pub proof fn lemma_empty_replies_concat(a: Seq<ISO15765Data>, b: Seq<ISO15765Data>)
    ensures
        empty_replies(a + b) == empty_replies(a) + empty_replies(b),
    decreases b.len(),
{
    if b.len() == 0 {
        assert(a + b =~= a);
        assert(empty_replies(a) + empty_replies(b) =~= empty_replies(a));
    } else {
        lemma_empty_replies_concat(a, b.drop_last());
        assert((a + b).drop_last() =~= a + b.drop_last());
        assert((a + b).last() == b.last());
        if b.last().data@.len() == 0 {
            assert(empty_replies(a) + empty_replies(b) =~= (empty_replies(a) + empty_replies(b.drop_last())).push(b.last()));
        }
    }
}

/// No more replies are kept than messages were given.
pub proof fn lemma_empty_replies_len(msgs: Seq<ISO15765Data>)
    ensures
        empty_replies(msgs).len() <= msgs.len(),
    decreases msgs.len(),
{
    if msgs.len() > 0 {
        lemma_empty_replies_len(msgs.drop_last());
    }
}

} // verus!
