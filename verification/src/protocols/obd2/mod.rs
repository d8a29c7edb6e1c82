//! On-board diagnostics (OBD-II): services, the support bitmaps ECUs report, and the
//! decoding of trouble codes.

use vstd::prelude::*;
use vstd::string::*;
use crate::text::{push_str, push_hex2, push_hex1, hex2, hex_char};
use crate::protocols::{CautionLevel, CommandError, ECUCommand, Selectable, DTC, DTCState,
    ProtocolError, ProtocolResult, ECUError, reply_readable};
use crate::comm_api::ISO15765Config;
use crate::iface::InterfaceType;
use crate::protocols::obd2::service01::Service01;
use crate::protocols::obd2::service03::Service03;
use crate::protocols::obd2::service04::Service04;
use crate::protocols::obd2::service09::Service09;

pub mod service01;
pub mod service03;
pub mod service04;
pub mod service09;

verus! {

pub type OBDError<T> = ProtocolResult<T>;

/// Bit `j` (0 for the most significant) of a byte.
pub open spec fn bit_msb(b: u8, j: int) -> bool {
    (b >> (7 - j) as u8) & 1 == 1
}

/// The bits of a byte sequence, most significant bit of the first byte first.
pub open spec fn obd_bits(src: Seq<u8>) -> Seq<bool> {
    Seq::new(8 * src.len(), |i: int| bit_msb(src[i / 8], i % 8))
}

/// The bits of each byte come most significant first: bit `8 * j` is set exactly when
/// byte `j` is 0x80 or more, and bit `8 * j + 7` exactly when byte `j` is odd; there are
/// eight bits per byte.
pub proof fn lemma_obd_bits_msb_first(src: Seq<u8>, j: int)
    requires
        0 <= j < src.len(),
    ensures
        obd_bits(src).len() == 8 * src.len(),
        obd_bits(src)[8 * j] == (src[j] >= 0x80),
        obd_bits(src)[8 * j + 7] == (src[j] % 2 == 1),
{
    let b = src[j];
    assert((8 * j) / 8 == j && (8 * j) % 8 == 0) by (nonlinear_arith) requires 0 <= j;
    assert((8 * j + 7) / 8 == j && (8 * j + 7) % 8 == 7) by (nonlinear_arith) requires 0 <= j;
    assert(((b >> 7u8) & 1 == 1) == (b >= 0x80)) by (bit_vector);
    assert(((b >> 0u8) & 1 == 1) == (b % 2 == 1)) by (bit_vector);
    assert(obd_bits(src)[8 * j] == bit_msb(b, 0));
    assert(obd_bits(src)[8 * j + 7] == bit_msb(b, 7));
}

/// The bits of a byte sequence, most significant bit of each byte first.
pub fn get_obd_bits(src: &[u8]) -> (r: Vec<bool>)
    requires
        8 * src@.len() <= usize::MAX,
    ensures
        r@ == obd_bits(src@),
{
    let mut res: Vec<bool> = Vec::new();
    let mut i: usize = 0;
    while i < src.len()
        invariant
            i <= src@.len(),
            8 * src@.len() <= usize::MAX,
            res@.len() == 8 * i,
            forall|k: int| 0 <= k < 8 * i ==> #[trigger] res@[k] == bit_msb(src@[k / 8], k % 8),
        decreases src@.len() - i,
    {
        let byte = src[i];
        let mut j: u8 = 0;
        while j < 8
            invariant
                i < src@.len(),
                byte == src@[i as int],
                8 * src@.len() <= usize::MAX,
                j <= 8,
                res@.len() == 8 * i + j,
                forall|k: int| 0 <= k < 8 * i + j ==> #[trigger] res@[k] == bit_msb(src@[k / 8], k % 8),
            decreases 8 - j,
        {
            let bit = (byte >> (7 - j)) & 1 == 1;
            proof {
                let k = 8 * i + j;
                assert(k / 8 == i as int && k % 8 == j as int);
            }
            res.push(bit);
            j = j + 1;
        }
        i = i + 1;
    }
    assert(res@ =~= obd_bits(src@));
    res
}

/// Decoding two runs of support bytes one after the other gives the same bits as decoding
/// them together: support bits learnt block by block line up with the parameters.
pub proof fn lemma_obd_bits_concat(a: Seq<u8>, b: Seq<u8>)
    ensures
        obd_bits(a + b) == obd_bits(a) + obd_bits(b),
{
    let l = obd_bits(a + b);
    let r = obd_bits(a) + obd_bits(b);
    assert(l.len() == r.len());
    assert forall|i: int| 0 <= i < l.len() implies l[i] == r[i] by {
        if i < 8 * a.len() {
            assert(i / 8 < a.len()) by (nonlinear_arith) requires 0 <= i < 8 * a.len();
            assert((a + b)[i / 8] == a[i / 8]);
        } else {
            let j = i - 8 * a.len();
            assert(i / 8 == a.len() + j / 8 && i % 8 == j % 8) by (nonlinear_arith)
                requires j == i - 8 * a.len(), 0 <= j;
            assert(j / 8 < b.len()) by (nonlinear_arith) requires 0 <= j < 8 * b.len();
            assert((a + b)[i / 8] == b[j / 8]);
        }
    }
    assert(l =~= r);
}

/// The error of an OBD command that the ECU does not support.
#[derive(Debug, Clone, Copy, PartialEq, Eq, Structural)]
pub enum ObdError {
    CmdNotSupported,
}

impl CommandError for ObdError {
    fn get_desc(&self) -> (r: String)
        ensures
            r@ == "OBD Command not supported by ECU"@,
    {
        String::from_str("OBD Command not supported by ECU")
    }

    fn get_help(&self) -> (r: Option<String>)
        ensures
            r matches Some(s) && s@ == "OBD Command not supported"@,
    {
        Some(String::from_str("OBD Command not supported"))
    }

    /// Every code byte means the command is not supported.
    fn from_byte(_b: u8) -> (r: Self)
        ensures
            r == ObdError::CmdNotSupported,
    {
        ObdError::CmdNotSupported
    }
}

/// An OBD-II service.
#[derive(Debug, Copy, Clone, PartialEq, Eq, Structural)]
pub enum OBDCmd {
    Service01,
    Service02,
    Service03,
    Service04,
    Service05,
    Service06,
    Service07,
    Service08,
    Service09,
    Service0A,
}

/// The service identifier byte of a service.
pub open spec fn obd_cmd_byte(c: OBDCmd) -> u8 {
    match c {
        OBDCmd::Service01 => 0x01,
        OBDCmd::Service02 => 0x02,
        OBDCmd::Service03 => 0x03,
        OBDCmd::Service04 => 0x04,
        OBDCmd::Service05 => 0x05,
        OBDCmd::Service06 => 0x06,
        OBDCmd::Service07 => 0x07,
        OBDCmd::Service08 => 0x08,
        OBDCmd::Service09 => 0x09,
        OBDCmd::Service0A => 0x0A,
    }
}

/// The services are listed in order of their identifiers: the `i`-th service of the list
/// (counting from 0) has identifier `i + 1`, from 0x01 to 0x0A.
pub proof fn lemma_obd_service_ids()
    ensures
        obd_cmd_list().len() == 10,
        forall|i: int| 0 <= i < 10 ==> obd_cmd_byte(#[trigger] obd_cmd_list()[i]) == i + 1,
{
    let l = obd_cmd_list();
    assert forall|i: int| 0 <= i < 10 implies obd_cmd_byte(#[trigger] l[i]) == i + 1 by {
        assert(l[0] == OBDCmd::Service01); assert(l[1] == OBDCmd::Service02);
        assert(l[2] == OBDCmd::Service03); assert(l[3] == OBDCmd::Service04);
        assert(l[4] == OBDCmd::Service05); assert(l[5] == OBDCmd::Service06);
        assert(l[6] == OBDCmd::Service07); assert(l[7] == OBDCmd::Service08);
        assert(l[8] == OBDCmd::Service09); assert(l[9] == OBDCmd::Service0A);
    }
}

/// The description of a service.
pub open spec fn obd_cmd_desc(c: OBDCmd) -> Seq<char> {
    match c {
        OBDCmd::Service01 => "Show current data"@,
        OBDCmd::Service02 => "Show freeze frame data"@,
        OBDCmd::Service03 => "Show DTCs"@,
        OBDCmd::Service04 => "Clear DTCs"@,
        OBDCmd::Service05 => "Test results, O2 sensor monitoring (Non CAN)"@,
        OBDCmd::Service06 => "Test results, 02 sensor monitoring (CAN only)"@,
        OBDCmd::Service07 => "Show pending DTCs"@,
        OBDCmd::Service08 => "Control operation of on-board systems"@,
        OBDCmd::Service09 => "Request vehicle information"@,
        OBDCmd::Service0A => "Permanent DTCs"@,
    }
}

/// The name of a service.
pub open spec fn obd_cmd_name(c: OBDCmd) -> Seq<char> {
    match c {
        OBDCmd::Service01 => "Service01"@,
        OBDCmd::Service02 => "Service02"@,
        OBDCmd::Service03 => "Service03"@,
        OBDCmd::Service04 => "Service04"@,
        OBDCmd::Service05 => "Service05"@,
        OBDCmd::Service06 => "Service06"@,
        OBDCmd::Service07 => "Service07"@,
        OBDCmd::Service08 => "Service08"@,
        OBDCmd::Service09 => "Service09"@,
        OBDCmd::Service0A => "Service0A"@,
    }
}

/// All services, in order.
pub open spec fn obd_cmd_list() -> Seq<OBDCmd> {
    seq![OBDCmd::Service01, OBDCmd::Service02, OBDCmd::Service03, OBDCmd::Service04, OBDCmd::Service05, OBDCmd::Service06, OBDCmd::Service07, OBDCmd::Service08, OBDCmd::Service09, OBDCmd::Service0A]
}

impl OBDCmd {
    /// The service identifier byte.
    pub fn to_byte(&self) -> (r: u8)
        ensures
            r == obd_cmd_byte(*self),
    {
        match self {
            OBDCmd::Service01 => 0x01,
            OBDCmd::Service02 => 0x02,
            OBDCmd::Service03 => 0x03,
            OBDCmd::Service04 => 0x04,
            OBDCmd::Service05 => 0x05,
            OBDCmd::Service06 => 0x06,
            OBDCmd::Service07 => 0x07,
            OBDCmd::Service08 => 0x08,
            OBDCmd::Service09 => 0x09,
            OBDCmd::Service0A => 0x0A,
        }
    }
}

impl Selectable for OBDCmd {
    fn get_desc(&self) -> (r: String)
        ensures
            r@ == obd_cmd_desc(*self),
    {
        let t: &str = match self {
            OBDCmd::Service01 => "Show current data",
            OBDCmd::Service02 => "Show freeze frame data",
            OBDCmd::Service03 => "Show DTCs",
            OBDCmd::Service04 => "Clear DTCs",
            OBDCmd::Service05 => "Test results, O2 sensor monitoring (Non CAN)",
            OBDCmd::Service06 => "Test results, 02 sensor monitoring (CAN only)",
            OBDCmd::Service07 => "Show pending DTCs",
            OBDCmd::Service08 => "Control operation of on-board systems",
            OBDCmd::Service09 => "Request vehicle information",
            OBDCmd::Service0A => "Permanent DTCs",
        };
        String::from_str(t)
    }

    fn get_name(&self) -> (r: String)
        ensures
            r@ == obd_cmd_name(*self),
    {
        let t: &str = match self {
            OBDCmd::Service01 => "Service01",
            OBDCmd::Service02 => "Service02",
            OBDCmd::Service03 => "Service03",
            OBDCmd::Service04 => "Service04",
            OBDCmd::Service05 => "Service05",
            OBDCmd::Service06 => "Service06",
            OBDCmd::Service07 => "Service07",
            OBDCmd::Service08 => "Service08",
            OBDCmd::Service09 => "Service09",
            OBDCmd::Service0A => "Service0A",
        };
        String::from_str(t)
    }
}

impl ECUCommand for OBDCmd {
    /// OBD-II only reads data, so no service is risky.
    fn get_caution_level(&self) -> (r: CautionLevel)
        ensures
            r == CautionLevel::Harmless,
    {
        CautionLevel::Harmless
    }

    fn get_cmd_list() -> (r: Vec<Self>)
        ensures
            r@ == obd_cmd_list(),
    {
        let mut r: Vec<OBDCmd> = Vec::new();
        r.push(OBDCmd::Service01);
        r.push(OBDCmd::Service02);
        r.push(OBDCmd::Service03);
        r.push(OBDCmd::Service04);
        r.push(OBDCmd::Service05);
        r.push(OBDCmd::Service06);
        r.push(OBDCmd::Service07);
        r.push(OBDCmd::Service08);
        r.push(OBDCmd::Service09);
        r.push(OBDCmd::Service0A);
        assert(r@ =~= obd_cmd_list());
        r
    }
}
/// The services of an ECU over OBD-II that were found to be available.
#[derive(Debug, Clone)]
pub struct ObdServer {
    pub s01: Option<Service01>,
    pub s02: bool,
    pub s03: Option<Service03>,
    pub s04: Option<Service04>,
    pub s05: bool,
    pub s06: bool,
    pub s07: bool,
    pub s08: bool,
    pub s09: Option<Service09>,
    pub s10: bool,
}

/// The rows of the list of supported services: whether each is available, its number
/// and its name.
pub open spec fn supported_services(s: ObdServer) -> Seq<(bool, usize, Seq<char>)> {
    seq![
        (s.s01 is Some, 0x01usize, "Sensor data"@),
        (s.s02, 0x02usize, "Freeze frame data"@),
        (s.s03 is Some, 0x03usize, "Read DTCs"@),
        (s.s04 is Some, 0x04usize, "Clear DTCs"@),
        (s.s05, 0x05usize, "O2 monitoring test results"@),
        (s.s06, 0x06usize, "test results (other)"@),
        (s.s07, 0x07usize, "Show pending DTCs"@),
        (s.s08, 0x08usize, "Control operation"@),
        (s.s09 is Some, 0x09usize, "Vehicle Info"@),
        (s.s10, 0x0Ausize, "Permanent DTCs"@),
    ]
}

impl ObdServer {
    /// A server where services 01 and 09 are as found, service 03 is always available,
    /// and no other service is.
    pub fn new(s01: Option<Service01>, s09: Option<Service09>) -> (r: Self)
        ensures
            r.s01 == s01,
            r.s03 == Some(Service03),
            r.s09 == s09,
            r.s04 is None,
            !r.s02 && !r.s05 && !r.s06 && !r.s07 && !r.s08 && !r.s10,
    {
        ObdServer {
            s01,
            s02: false,
            s03: Some(Service03),
            s04: None,
            s05: false,
            s06: false,
            s07: false,
            s08: false,
            s09,
            s10: false,
        }
    }

    /// Runs a request on service 09 when the ECU offers it; otherwise the request fails
    /// with `Service not supported by ECU`.
    pub fn req_service09<T, F: Fn(&Service09) -> ProtocolResult<T>>(&self, func: F) -> (r: ProtocolResult<T>)
        requires
            self.s09 matches Some(s) ==> func.requires((&s,)),
        ensures
            self.s09 matches Some(s) ==> func.ensures((&s,), r),
            self.s09 is None ==> (r matches Err(ProtocolError::CustomError(m)) && m@ == "Service not supported by ECU"@),
    {
        match &self.s09 {
            Some(s) => func(s),
            None => Err(ProtocolError::CustomError(String::from_str("Service not supported by ECU"))),
        }
    }

    /// The services of OBD-II, each with whether the ECU offers it, its number and its name.
    pub fn get_supported_services(&self) -> (r: Vec<(bool, usize, String)>)
        ensures
            r@.len() == 10,
            forall|i: int| 0 <= i < 10 ==> {
                &&& (#[trigger] r@[i]).0 == supported_services(*self)[i].0
                &&& r@[i].1 == supported_services(*self)[i].1
                &&& r@[i].2@ == supported_services(*self)[i].2
            },
    {
        let mut res: Vec<(bool, usize, String)> = Vec::new();
        res.push((self.s01.is_some(), 0x01, String::from_str("Sensor data")));
        res.push((self.s02, 0x02, String::from_str("Freeze frame data")));
        res.push((self.s03.is_some(), 0x03, String::from_str("Read DTCs")));
        res.push((self.s04.is_some(), 0x04, String::from_str("Clear DTCs")));
        res.push((self.s05, 0x05, String::from_str("O2 monitoring test results")));
        res.push((self.s06, 0x06, String::from_str("test results (other)")));
        res.push((self.s07, 0x07, String::from_str("Show pending DTCs")));
        res.push((self.s08, 0x08, String::from_str("Control operation")));
        res.push((self.s09.is_some(), 0x09, String::from_str("Vehicle Info")));
        res.push((self.s10, 0x0A, String::from_str("Permanent DTCs")));
        res
    }
}

/// The error of a negative OBD-II reply: the ECU does not support the command.
pub open spec fn obd_not_supported() -> ProtocolError {
    ProtocolError::ProtocolError(ECUError::OBD(ObdError::CmdNotSupported))
}

/// Checks a reply relayed by an OBD-II session: a negative reply (first byte 0x7F) means
/// the ECU does not support the command; any other reply is returned unchanged.
pub fn check_reply(resp: Vec<u8>) -> (r: ProtocolResult<Vec<u8>>)
    requires
        resp@.len() >= 1,
    ensures
        resp@[0] == 0x7F ==> r == Err::<Vec<u8>, ProtocolError>(obd_not_supported()),
        resp@[0] != 0x7F ==> r == Ok::<Vec<u8>, ProtocolError>(resp),
{
    if resp[0] == 0x7F {
        Err(ProtocolError::ProtocolError(ECUError::OBD(<ObdError as CommandError>::from_byte(0))))
    } else {
        Ok(resp)
    }
}

/// Interprets the final reply of an OBD-II request `cmd` sent over ISO-TP: a negative
/// reply means the command is not supported; a positive reply (first byte `cmd + 0x40`)
/// is returned whole; any other first byte counts as no answer.
pub fn interpret_iso_tp_reply(cmd: u8, resp: Vec<u8>) -> (r: ProtocolResult<Vec<u8>>)
    requires
        reply_readable(resp@),
        cmd + 0x40 <= 0xFF,
    ensures
        resp@[0] == 0x7F ==> r == Err::<Vec<u8>, ProtocolError>(obd_not_supported()),
        resp@[0] != 0x7F && resp@[0] == cmd + 0x40 ==> r == Ok::<Vec<u8>, ProtocolError>(resp),
        resp@[0] != 0x7F && resp@[0] != cmd + 0x40 ==> r matches Err(ProtocolError::Timeout),
{
    if resp[0] == 0x7F {
        Err(ProtocolError::ProtocolError(ECUError::OBD(<ObdError as CommandError>::from_byte(resp[2]))))
    } else if resp[0] == cmd + 0x40 {
        Ok(resp)
    } else {
        Err(ProtocolError::Timeout)
    }
}

/// Whether an OBD-II session can start on an interface: only ISO-TP is served. ISO 9141
/// is refused as work in progress, every other interface as unsuitable for OBD-II.
pub fn check_obd_interface(iface: InterfaceType) -> (r: ProtocolResult<()>)
    ensures
        iface == InterfaceType::IsoTp ==> r is Ok,
        iface == InterfaceType::Iso9141 ==> (r matches Err(ProtocolError::CustomError(m))
            && m@ == "OBD-II over ISO9141 is a WIP"@),
        (iface != InterfaceType::IsoTp && iface != InterfaceType::Iso9141) ==> (r matches Err(ProtocolError::CustomError(m))
            && m@ == "OBD-II Can only be executed over ISO-TP or ISO9141"@),
{
    match iface {
        InterfaceType::IsoTp => Ok(()),
        InterfaceType::Iso9141 => Err(ProtocolError::CustomError(String::from_str("OBD-II over ISO9141 is a WIP"))),
        _ => Err(ProtocolError::CustomError(String::from_str("OBD-II Can only be executed over ISO-TP or ISO9141"))),
    }
}

/// The ISO-TP settings tried, in order, to find the ECU that answers OBD-II requests:
/// functional requests to 0x7DF, replies from 0x7E8, 0x7E9 or 0x7E0, block size 8 and
/// separation time 20 ms.
pub fn iso_tp_candidates() -> (r: Vec<ISO15765Config>)
    ensures
        r@.len() == 3,
        r@[0].recv_id == 0x7E8 && r@[1].recv_id == 0x7E9 && r@[2].recv_id == 0x7E0,
        forall|i: int| 0 <= i < 3 ==> (#[trigger] r@[i]).send_id == 0x7DF && r@[i].block_size == 8
            && r@[i].sep_time == 20,
{
    let mut r: Vec<ISO15765Config> = Vec::new();
    r.push(ISO15765Config { send_id: 0x07DF, recv_id: 0x07E8, block_size: 8, sep_time: 20 });
    r.push(ISO15765Config { send_id: 0x07DF, recv_id: 0x07E9, block_size: 8, sep_time: 20 });
    r.push(ISO15765Config { send_id: 0x07DF, recv_id: 0x07E0, block_size: 8, sep_time: 20 });
    r
}

/// The services that report trouble codes, in the order they are asked, each with the
/// state of the codes it reports: stored (0x03), pending (0x07) and permanent (0x0A).
pub fn dtc_services() -> (r: [(u8, DTCState); 3])
    ensures
        r@ == seq![(0x03u8, DTCState::Stored), (0x07u8, DTCState::Pending), (0x0Au8, DTCState::Permanent)],
{
    let r = [(0x03u8, DTCState::Stored), (0x07u8, DTCState::Pending), (0x0Au8, DTCState::Permanent)];
    assert(r@ =~= seq![(0x03u8, DTCState::Stored), (0x07u8, DTCState::Pending), (0x0Au8, DTCState::Permanent)]);
    r
}

/// The letter of an OBD-II trouble code from the top two bits of its first byte:
/// powertrain, chassis, body or network.
pub open spec fn dtc_letter(a: u8) -> char {
    if a / 64 == 0 { 'P' } else if a / 64 == 1 { 'C' } else if a / 64 == 2 { 'B' } else { 'U' }
}

/// The text of an OBD-II trouble code from its two bytes: the letter, the digit 0-3 from
/// bits 5-4 of the first byte, one hex digit from its low nibble, and the second byte as
/// two hex digits (bytes 0x12 0x34 give `P1234`).
pub open spec fn obd_dtc_text(a: u8, b: u8) -> Seq<char> {
    seq![dtc_letter(a), hex_char(((a / 16) % 4) as int), hex_char((a % 16) as int)] + hex2(b)
}

/// A reply of trouble codes is complete: a count, then two bytes per code.
pub open spec fn dtc_reply_complete(bytes: Seq<u8>) -> bool {
    bytes.len() >= 1 && bytes.len() >= 1 + 2 * bytes[0]
}

/// Code `k` of a trouble-code reply is decoded from its bytes.
pub open spec fn obd_dtc_decoded(bytes: Seq<u8>, k: int, state: DTCState, d: DTC) -> bool {
    let a = bytes[2 * k + 1];
    let b = bytes[2 * k + 2];
    &&& d.error@ == obd_dtc_text(a, b)
    &&& d.state == state
    &&& d.check_engine_on == (state == DTCState::Stored || state == DTCState::Permanent)
    &&& d.id == a * 256 + b
}

/// A decoded OBD-II trouble code names its system by the top two bits of its first byte:
/// 0x00-0x3F powertrain (`P`), 0x40-0x7F chassis (`C`), 0x80-0xBF body (`B`), 0xC0-0xFF
/// network (`U`); the digit after the letter is bits 5-4 of that byte (0-3), and the code
/// is five characters long. Different systems get different letters.
pub proof fn lemma_dtc_system_letter(bytes: Seq<u8>, k: int, state: DTCState, d: DTC)
    requires
        obd_dtc_decoded(bytes, k, state, d),
    ensures
        d.error@.len() == 5,
        bytes[2 * k + 1] < 0x40 ==> d.error@[0] == 'P',
        0x40 <= bytes[2 * k + 1] < 0x80 ==> d.error@[0] == 'C',
        0x80 <= bytes[2 * k + 1] < 0xC0 ==> d.error@[0] == 'B',
        0xC0 <= bytes[2 * k + 1] ==> d.error@[0] == 'U',
        bytes[2 * k + 1] % 64 < 16 ==> d.error@[1] == '0',
        16 <= bytes[2 * k + 1] % 64 < 32 ==> d.error@[1] == '1',
        32 <= bytes[2 * k + 1] % 64 < 48 ==> d.error@[1] == '2',
        48 <= bytes[2 * k + 1] % 64 ==> d.error@[1] == '3',
        d.id == bytes[2 * k + 1] * 256 + bytes[2 * k + 2],
{
    let a = bytes[2 * k + 1];
    let b = bytes[2 * k + 2];
    assert(d.error@ == obd_dtc_text(a, b));
    assert(obd_dtc_text(a, b)[0] == dtc_letter(a));
    assert(obd_dtc_text(a, b)[1] == hex_char(((a / 16) % 4) as int));
    assert((a / 16) % 4 == (a % 64) / 16) by (nonlinear_arith);
}

/// Decodes a reply of services 03, 07 or 0A (without its service byte): the number of
/// codes, then two bytes per code. Every code gets the given state; the check-engine lamp
/// is on for stored and permanent codes. The codes are appended to `res`.
pub fn decode_dtc_resp(bytes: &[u8], state: DTCState, res: &mut Vec<DTC>)
    requires
        dtc_reply_complete(bytes@),
        old(res)@.len() + bytes@[0] <= usize::MAX,
    ensures
        final(res)@.len() == old(res)@.len() + bytes@[0],
        forall|i: int| 0 <= i < old(res)@.len() ==> #[trigger] final(res)@[i] == old(res)@[i],
        forall|k: int| 0 <= k < bytes@[0] ==> obd_dtc_decoded(bytes@, k, state, #[trigger] final(res)@[old(res)@.len() + k]),
{
    let num_dtcs = bytes[0];
    if num_dtcs == 0 {
        return;
    }
    let ghost start = res@;
    let mut idx: usize = 0;
    while idx < num_dtcs as usize
        invariant
            num_dtcs == bytes@[0],
            dtc_reply_complete(bytes@),
            idx <= num_dtcs,
            res@.len() == start.len() + idx,
            forall|i: int| 0 <= i < start.len() ==> #[trigger] res@[i] == start[i],
            forall|k: int| 0 <= k < idx ==> obd_dtc_decoded(bytes@, k, state, #[trigger] res@[start.len() + k]),
        decreases num_dtcs - idx,
    {
        let a = bytes[idx * 2 + 1];
        let b = bytes[idx * 2 + 2];
        let top = (a & 0b11000000) >> 6;
        let second_bits = (a & 0b00110000) >> 4;
        let low = a & 0b00001111;
        assert(top == a / 64 && second_bits == (a / 16) % 4 && low == a % 16) by (bit_vector)
            requires
                top == (a & 0b11000000) >> 6,
                second_bits == (a & 0b00110000) >> 4,
                low == a & 0b00001111;
        let letter: &str = match top {
            0 => "P",
            1 => "C",
            2 => "B",
            _ => "U",
        };
        let mut error = String::new();
        proof {
            reveal_strlit("P"); reveal_strlit("C"); reveal_strlit("B"); reveal_strlit("U");
        }
        push_str(&mut error, letter);
        push_hex1(&mut error, second_bits);
        push_hex1(&mut error, low);
        push_hex2(&mut error, b);
        let id = (a as u32) << 8 | b as u32;
        assert(id == a * 256 + b) by (bit_vector) requires id == (a as u32) << 8 | b as u32;
        let d = DTC {
            error,
            state,
            check_engine_on: state == DTCState::Stored || state == DTCState::Permanent,
            id,
        };
        proof {
            assert(d.error@ =~= obd_dtc_text(a, b));
        }
        res.push(d);
        idx = idx + 1;
    }
}

} // verus!
