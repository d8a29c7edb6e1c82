//! Interfaces over an adapter (CAN, ISO-TP, K-Line): their configuration, payloads,
//! and the decisions an interface makes when it is created and set up.

use vstd::prelude::*;
use vstd::string::*;
use std::collections::HashMap;
use crate::bytes::clone_bytes;
use crate::comm_api::{CanFrame, Capability, ComServerError, DeviceCapabilities, ISO15765Data};
use crate::text::push_str;

verus! {

pub type InterfaceResult<T> = Result<T, ComServerError>;

/// The parameters an interface is configured with.
#[derive(Debug, Copy, Clone, PartialEq, Eq, Structural)]
#[allow(non_camel_case_types)]
pub enum IFACE_CFG {
    BAUDRATE,
    SEND_ID,
    RECV_ID,
    EXT_CAN_ADDR,
    EXT_ISOTP_ADDR,
    PAD_FLOW_CONTROL,
    ISOTP_BS,
    ISOTP_ST_MIN,
}

/// The slot of a parameter in a configuration.
pub open spec fn cfg_index(p: IFACE_CFG) -> int {
    match p {
        IFACE_CFG::BAUDRATE => 0,
        IFACE_CFG::SEND_ID => 1,
        IFACE_CFG::RECV_ID => 2,
        IFACE_CFG::EXT_CAN_ADDR => 3,
        IFACE_CFG::EXT_ISOTP_ADDR => 4,
        IFACE_CFG::PAD_FLOW_CONTROL => 5,
        IFACE_CFG::ISOTP_BS => 6,
        IFACE_CFG::ISOTP_ST_MIN => 7,
    }
}

/// The name of a parameter, as written in messages.
pub open spec fn cfg_name(p: IFACE_CFG) -> Seq<char> {
    match p {
        IFACE_CFG::BAUDRATE => "BAUDRATE"@,
        IFACE_CFG::SEND_ID => "SEND_ID"@,
        IFACE_CFG::RECV_ID => "RECV_ID"@,
        IFACE_CFG::EXT_CAN_ADDR => "EXT_CAN_ADDR"@,
        IFACE_CFG::EXT_ISOTP_ADDR => "EXT_ISOTP_ADDR"@,
        IFACE_CFG::PAD_FLOW_CONTROL => "PAD_FLOW_CONTROL"@,
        IFACE_CFG::ISOTP_BS => "ISOTP_BS"@,
        IFACE_CFG::ISOTP_ST_MIN => "ISOTP_ST_MIN"@,
    }
}

impl IFACE_CFG {
    fn index(&self) -> (r: usize)
        ensures
            r == cfg_index(*self),
    {
        match self {
            IFACE_CFG::BAUDRATE => 0,
            IFACE_CFG::SEND_ID => 1,
            IFACE_CFG::RECV_ID => 2,
            IFACE_CFG::EXT_CAN_ADDR => 3,
            IFACE_CFG::EXT_ISOTP_ADDR => 4,
            IFACE_CFG::PAD_FLOW_CONTROL => 5,
            IFACE_CFG::ISOTP_BS => 6,
            IFACE_CFG::ISOTP_ST_MIN => 7,
        }
    }

    /// The name of the parameter.
    pub fn to_string(&self) -> (r: String)
        ensures
            r@ == cfg_name(*self),
    {
        let t: &str = match self {
            IFACE_CFG::BAUDRATE => "BAUDRATE",
            IFACE_CFG::SEND_ID => "SEND_ID",
            IFACE_CFG::RECV_ID => "RECV_ID",
            IFACE_CFG::EXT_CAN_ADDR => "EXT_CAN_ADDR",
            IFACE_CFG::EXT_ISOTP_ADDR => "EXT_ISOTP_ADDR",
            IFACE_CFG::PAD_FLOW_CONTROL => "PAD_FLOW_CONTROL",
            IFACE_CFG::ISOTP_BS => "ISOTP_BS",
            IFACE_CFG::ISOTP_ST_MIN => "ISOTP_ST_MIN",
        };
        String::from_str(t)
    }
}

/// Flags that change how a payload is sent.
#[derive(Debug, Clone, Copy, PartialEq, Eq, Structural)]
#[allow(non_camel_case_types)]
pub enum PayloadFlag {
    ISOTP_PAD_FRAME,
    ISOTP_EXT_ADDR,
}

/// A message sent or received through an interface.
#[derive(Debug, Clone)]
pub struct InterfacePayload {
    pub id: u32,
    pub data: Vec<u8>,
    pub flags: Vec<PayloadFlag>,
}

impl InterfacePayload {
    /// Whether the payload carries the flag.
    pub fn is_flag_set(&self, f: PayloadFlag) -> (r: bool)
        ensures
            r == self.flags@.contains(f),
    {
        let mut i: usize = 0;
        while i < self.flags.len()
            invariant
                i <= self.flags@.len(),
                forall|j: int| 0 <= j < i ==> self.flags@[j] != f,
            decreases self.flags@.len() - i,
        {
            if self.flags[i] == f {
                return true;
            }
            i = i + 1;
        }
        false
    }

    /// A payload with the given identifier and data, and no flags.
    pub fn new(id: u32, data: &[u8]) -> (r: Self)
        ensures
            r.id == id,
            r.data@ == data@,
            r.flags@.len() == 0,
    {
        Self { id, data: crate::bytes::copy_all(data), flags: Vec::new() }
    }
}

/// The parameters of an interface, keyed by each parameter's position in `IFACE_CFG`.
#[derive(Debug, Clone)]
pub struct InterfaceConfig {
    params: HashMap<usize, u32>,
}

impl View for InterfaceConfig {
    type V = Map<IFACE_CFG, u32>;

    /// The parameters that are set, with their values.
    closed spec fn view(&self) -> Map<IFACE_CFG, u32> {
        Map::new(
            |k: IFACE_CFG| self.params@.contains_key(cfg_index(k) as usize),
            |k: IFACE_CFG| self.params@[cfg_index(k) as usize],
        )
    }
}

impl InterfaceConfig {
    /// A configuration with no parameter set.
    pub fn new() -> (r: Self)
        ensures
            r@ == Map::<IFACE_CFG, u32>::empty(),
    {
        broadcast use vstd::std_specs::hash::group_hash_axioms;
        let r = Self { params: HashMap::new() };
        assert(r@ =~= Map::<IFACE_CFG, u32>::empty());
        r
    }

    /// Sets a parameter, replacing any earlier value.
    pub fn add_param(&mut self, param_name: IFACE_CFG, param_value: u32)
        ensures
            final(self)@ == old(self)@.insert(param_name, param_value),
    {
        broadcast use vstd::std_specs::hash::group_hash_axioms;
        let idx = param_name.index();
        self.params.insert(idx, param_value);
        proof {
            assert forall|k: IFACE_CFG| cfg_index(k) == cfg_index(param_name) implies k == param_name by {
            }
        }
        assert(self@ =~= old(self)@.insert(param_name, param_value));
    }

    /// The value of a parameter, or `default` when it is not set.
    pub fn get_param_or_default(&self, param_name: IFACE_CFG, default: u32) -> (r: u32)
        ensures
            r == (if self@.contains_key(param_name) { self@[param_name] } else { default }),
    {
        broadcast use vstd::std_specs::hash::group_hash_axioms;
        match self.params.get(&param_name.index()) {
            Some(x) => *x,
            None => default,
        }
    }

    /// The value of a parameter; an error (code 999) names a parameter that is not set.
    pub fn get_param(&self, param_name: IFACE_CFG) -> (r: InterfaceResult<u32>)
        ensures
            self@.contains_key(param_name) ==> r == Ok::<u32, ComServerError>(self@[param_name]),
            !self@.contains_key(param_name) ==> (r matches Err(e) && e.err_code == 999
                && e.err_desc@ == "Interface configuration has missing parameter "@ + cfg_name(param_name)),
    {
        broadcast use vstd::std_specs::hash::group_hash_axioms;
        match self.params.get(&param_name.index()) {
            Some(x) => Ok(*x),
            None => {
                let mut desc = String::new();
                proof { reveal_strlit("Interface configuration has missing parameter "); }
                push_str(&mut desc, "Interface configuration has missing parameter ");
                let name = param_name.to_string();
                push_str(&mut desc, name.as_str());
                Err(ComServerError { err_code: 999, err_desc: desc })
            },
        }
    }
}

/// Reading a parameter gives back the value last written to it, and writing one
/// parameter leaves every other parameter as it was.
pub proof fn lemma_param_read_after_write(cfg: Map<IFACE_CFG, u32>, k: IFACE_CFG, v: u32, other: IFACE_CFG)
    ensures
        cfg.insert(k, v).contains_key(k),
        cfg.insert(k, v)[k] == v,
        other != k ==> (cfg.insert(k, v).contains_key(other) == cfg.contains_key(other)),
        other != k && cfg.contains_key(other) ==> cfg.insert(k, v)[other] == cfg[other],
{
}

/// Which buffer of an adapter to clear.
#[derive(Debug, Copy, Clone, PartialEq, Eq, Structural)]
pub enum BufferType {
    TX,
    RX,
    BOTH,
}

/// The kinds of interface that can run over an adapter.
#[derive(Debug, Copy, Clone, PartialEq, Eq, Structural, PartialOrd, Ord)]
pub enum InterfaceType {
    Can,
    IsoTp,
    Iso14230,
    Iso9141,
}

/// The display name of an interface, or `Not configured` when there is none.
pub open spec fn interface_name(t: Option<InterfaceType>) -> Seq<char> {
    match t {
        Some(InterfaceType::Can) => "CAN"@,
        Some(InterfaceType::IsoTp) => "ISO15765 (ISO-TP)"@,
        Some(InterfaceType::Iso14230) => "ISO14230 (KWP2000 over LIN)"@,
        Some(InterfaceType::Iso9141) => "ISO9141 (OBD-II)"@,
        None => "Not configured"@,
    }
}

/// The display name of a dynamically chosen interface.
pub fn dynamic_interface_name(iface_type: Option<InterfaceType>) -> (r: &'static str)
    ensures
        r@ == interface_name(iface_type),
{
    match iface_type {
        Some(InterfaceType::Can) => "CAN",
        Some(InterfaceType::IsoTp) => "ISO15765 (ISO-TP)",
        Some(InterfaceType::Iso14230) => "ISO14230 (KWP2000 over LIN)",
        Some(InterfaceType::Iso9141) => "ISO9141 (OBD-II)",
        None => "Not configured",
    }
}

/// The capability of a device that an interface kind needs.
pub open spec fn needed_capability(t: InterfaceType, caps: DeviceCapabilities) -> Capability {
    match t {
        InterfaceType::Can => caps.can,
        InterfaceType::IsoTp => caps.iso15765,
        InterfaceType::Iso14230 => caps.iso14230,
        InterfaceType::Iso9141 => caps.iso9141,
    }
}

/// The message given when a device lacks what an interface kind needs.
pub open spec fn unsupported_text(t: InterfaceType) -> Seq<char> {
    match t {
        InterfaceType::Can => "Device does not support CAN"@,
        InterfaceType::IsoTp => "Device does not support IsoTP"@,
        InterfaceType::Iso14230 => "Device does not support ISO14230"@,
        InterfaceType::Iso9141 => "Device does not support ISO9141"@,
    }
}

/// Checks that a device can carry an interface of the given kind; the interface is
/// created only when the device reports `Yes` for it, otherwise the error has code 1.
pub fn check_interface_support(t: InterfaceType, caps: &DeviceCapabilities) -> (r: InterfaceResult<()>)
    ensures
        r is Ok <==> needed_capability(t, *caps) == Capability::Yes,
        r matches Err(e) ==> e.err_code == 1 && e.err_desc@ == unsupported_text(t),
{
    let cap = match t {
        InterfaceType::Can => caps.support_can_fd(),
        InterfaceType::IsoTp => caps.supports_iso15765(),
        InterfaceType::Iso14230 => caps.supports_iso14230(),
        InterfaceType::Iso9141 => caps.supports_iso9141(),
    };
    if cap != Capability::Yes {
        let desc: &str = match t {
            InterfaceType::Can => "Device does not support CAN",
            InterfaceType::IsoTp => "Device does not support IsoTP",
            InterfaceType::Iso14230 => "Device does not support ISO14230",
            InterfaceType::Iso9141 => "Device does not support ISO9141",
        };
        Err(ComServerError { err_code: 1, err_desc: String::from_str(desc) })
    } else {
        Ok(())
    }
}

/// The settings with which a CAN interface opens its channel: the baud rate, which
/// must be configured, and whether extended CAN addressing is set (non-zero).
pub fn can_setup_params(cfg: &InterfaceConfig) -> (r: InterfaceResult<(u32, bool)>)
    ensures
        cfg@.contains_key(IFACE_CFG::BAUDRATE) ==> r == Ok::<(u32, bool), ComServerError>((
            cfg@[IFACE_CFG::BAUDRATE],
            cfg@.contains_key(IFACE_CFG::EXT_CAN_ADDR) && cfg@[IFACE_CFG::EXT_CAN_ADDR] > 0,
        )),
        !cfg@.contains_key(IFACE_CFG::BAUDRATE) ==> (r matches Err(e) && e.err_code == 999),
{
    let baud = match cfg.get_param(IFACE_CFG::BAUDRATE) {
        Ok(b) => b,
        Err(e) => return Err(e),
    };
    let ext = cfg.get_param_or_default(IFACE_CFG::EXT_CAN_ADDR, 0) > 0;
    Ok((baud, ext))
}

/// The settings with which an ISO-TP interface opens its channel and sets its flow control.
#[derive(Debug, Copy, Clone, PartialEq, Eq, Structural)]
pub struct IsoTpSetup {
    pub baud: u32,
    pub ext_can: bool,
    pub ext_isotp: bool,
    pub sep_time_min: u32,
    pub block_size: u32,
}

/// The value of a parameter in a configuration view, or a default.
pub open spec fn param_or(cfg: Map<IFACE_CFG, u32>, k: IFACE_CFG, d: u32) -> u32 {
    if cfg.contains_key(k) { cfg[k] } else { d }
}

/// The settings of an ISO-TP interface: the baud rate must be configured; extended CAN
/// and extended ISO-TP addressing are off unless set non-zero; the separation time
/// defaults to 20 and the block size to 8.
pub fn isotp_setup_params(cfg: &InterfaceConfig) -> (r: InterfaceResult<IsoTpSetup>)
    ensures
        cfg@.contains_key(IFACE_CFG::BAUDRATE) ==> r == Ok::<IsoTpSetup, ComServerError>(IsoTpSetup {
            baud: cfg@[IFACE_CFG::BAUDRATE],
            ext_can: param_or(cfg@, IFACE_CFG::EXT_CAN_ADDR, 0) > 0,
            ext_isotp: param_or(cfg@, IFACE_CFG::EXT_ISOTP_ADDR, 0) > 0,
            sep_time_min: param_or(cfg@, IFACE_CFG::ISOTP_ST_MIN, 20),
            block_size: param_or(cfg@, IFACE_CFG::ISOTP_BS, 8),
        }),
        !cfg@.contains_key(IFACE_CFG::BAUDRATE) ==> (r matches Err(e) && e.err_code == 999),
{
    let baud = match cfg.get_param(IFACE_CFG::BAUDRATE) {
        Ok(b) => b,
        Err(e) => return Err(e),
    };
    Ok(IsoTpSetup {
        baud,
        ext_can: cfg.get_param_or_default(IFACE_CFG::EXT_CAN_ADDR, 0) > 0,
        ext_isotp: cfg.get_param_or_default(IFACE_CFG::EXT_ISOTP_ADDR, 0) > 0,
        sep_time_min: cfg.get_param_or_default(IFACE_CFG::ISOTP_ST_MIN, 20),
        block_size: cfg.get_param_or_default(IFACE_CFG::ISOTP_BS, 8),
    })
}

/// The CAN frame that carries a payload on a CAN interface.
pub fn payload_to_can_frame(p: &InterfacePayload) -> (r: CanFrame)
    ensures
        r.wf(),
        r.id == p.id,
        r.payload() == p.data@.subrange(0, r.dlc as int),
        r.dlc as int == if p.data@.len() < 8 { p.data@.len() as int } else { 8 },
{
    CanFrame::new(p.id, p.data.as_slice())
}

/// The payload that a received CAN frame becomes: its identifier and data, no flags.
pub fn can_frame_to_payload(f: &CanFrame) -> (r: InterfacePayload)
    requires
        f.wf(),
    ensures
        r.id == f.id,
        r.data@ == f.payload(),
        r.flags@.len() == 0,
{
    InterfacePayload::new(f.id, f.get_data())
}

/// The ISO-TP message that carries a payload on an ISO-TP interface: padding and
/// extended addressing follow the payload's flags.
pub fn payload_to_iso15765(p: &InterfacePayload) -> (r: ISO15765Data)
    ensures
        r.id == p.id,
        r.data@ == p.data@,
        r.pad_frame == p.flags@.contains(PayloadFlag::ISOTP_PAD_FRAME),
        r.ext_addressing == p.flags@.contains(PayloadFlag::ISOTP_EXT_ADDR),
{
    ISO15765Data {
        id: p.id,
        data: clone_bytes(&p.data),
        pad_frame: p.is_flag_set(PayloadFlag::ISOTP_PAD_FRAME),
        ext_addressing: p.is_flag_set(PayloadFlag::ISOTP_EXT_ADDR),
    }
}

/// The payload that a received ISO-TP message becomes: its identifier and data, no flags.
pub fn iso15765_to_payload(d: &ISO15765Data) -> (r: InterfacePayload)
    ensures
        r.id == d.id,
        r.data@ == d.data@,
        r.flags@.len() == 0,
{
    InterfacePayload { id: d.id, data: clone_bytes(&d.data), flags: Vec::new() }
}

/// The error of an operation on a dynamic interface that was never configured.
pub fn not_configured_error() -> (r: ComServerError)
    ensures
        r.err_code == 98,
        r.err_desc@ == "Dynamic interface not configured!"@,
{
    ComServerError { err_code: 98, err_desc: String::from_str("Dynamic interface not configured!") }
}

/// The reply of a send-and-receive exchange: the first message read, or a timeout
/// error (code 2) when nothing was read.
pub fn first_reply(res: Vec<InterfacePayload>) -> (r: InterfaceResult<InterfacePayload>)
    ensures
        res@.len() > 0 ==> r == Ok::<InterfacePayload, ComServerError>(res@[0]),
        res@.len() == 0 ==> (r matches Err(e) && e.err_code == 2 && e.err_desc@ == "Timeout waiting"@),
{
    let mut res = res;
    if res.len() == 0 {
        Err(ComServerError { err_code: 2, err_desc: String::from_str("Timeout waiting") })
    } else {
        Ok(res.remove(0))
    }
}

} // verus!
