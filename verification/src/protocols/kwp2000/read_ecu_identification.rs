//! Read ECU Identification ($1A): part numbers, versions, dates, VINs and fingerprints.
//! Each reply is decoded from the bytes the ECU returns, service byte and option first.

use vstd::prelude::*;
use vstd::string::*;
use vstd::utf8::{valid_utf8, decode_utf8};
use crate::text::{push_str, push_hex2, push_decimal, hex2, decimal, utf8_decode};
use crate::protocols::{ProtocolError, ProtocolResult};
use crate::protocols::kwp2000::{push_bcd, bcd_text, bcd_text_seq, bcd_decode_slice};

verus! {

/// The identification records an ECU can be asked for.
#[derive(Debug, Copy, Clone, PartialEq, Eq, Structural)]
pub enum IdentificationType {
    DcsEcuIdentification,
    DcxMmcEcuIdentification,
    OriginalVin,
    DiagVariantCode,
    CurrentVin,
    CalibrationId,
    CalibrationVerificationNumber,
    CodeFingerprint,
    DataFingerprint,
    CodeSoftwareId,
    DataSoftwareId,
    BootSoftwareId,
    BootFingerprint,
}

impl IdentificationType {
    /// The option byte that asks for the record.
    pub fn to_byte(&self) -> (r: u8)
        ensures
            r == (match *self {
                IdentificationType::DcsEcuIdentification => 0x86u8,
                IdentificationType::DcxMmcEcuIdentification => 0x87u8,
                IdentificationType::OriginalVin => 0x88u8,
                IdentificationType::DiagVariantCode => 0x89u8,
                IdentificationType::CurrentVin => 0x90u8,
                IdentificationType::CalibrationId => 0x96u8,
                IdentificationType::CalibrationVerificationNumber => 0x97u8,
                IdentificationType::CodeFingerprint => 0x9Au8,
                IdentificationType::DataFingerprint => 0x9Bu8,
                IdentificationType::CodeSoftwareId => 0x9Cu8,
                IdentificationType::DataSoftwareId => 0x9Du8,
                IdentificationType::BootSoftwareId => 0x9Eu8,
                IdentificationType::BootFingerprint => 0x9Fu8,
            }),
    {
        match self {
            IdentificationType::DcsEcuIdentification => 0x86,
            IdentificationType::DcxMmcEcuIdentification => 0x87,
            IdentificationType::OriginalVin => 0x88,
            IdentificationType::DiagVariantCode => 0x89,
            IdentificationType::CurrentVin => 0x90,
            IdentificationType::CalibrationId => 0x96,
            IdentificationType::CalibrationVerificationNumber => 0x97,
            IdentificationType::CodeFingerprint => 0x9A,
            IdentificationType::DataFingerprint => 0x9B,
            IdentificationType::CodeSoftwareId => 0x9C,
            IdentificationType::DataSoftwareId => 0x9D,
            IdentificationType::BootSoftwareId => 0x9E,
            IdentificationType::BootFingerprint => 0x9F,
        }
    }
}

/// DaimlerChrysler (DCS) ECU identification.
#[derive(Debug, Clone)]
pub struct DcsEcuId {
    pub part_number: String,
    pub hardware_build_date: String,
    pub software_written_date: String,
    pub supplier_id: u8,
    pub diag_information: u16,
    pub production_date: String,
}

/// DaimlerChrysler (DCX / MMC) ECU identification.
#[derive(Debug, Clone)]
pub struct DcxMmcECUId {
    pub ecu_origin: u8,
    pub supplier_id: u8,
    pub diag_information: u16,
    pub hardware_version: String,
    pub software_version: String,
    pub part_number: String,
}

/// A tool that programmed a module of the ECU.
#[derive(Debug, Clone)]
pub struct ToolSupplier {
    pub id: String,
    pub programming_date: String,
    pub serial_number: String,
}

/// The programming history of the ECU's code or data.
#[derive(Debug, Clone)]
pub struct CodeFingerprint {
    pub num_modules: u32,
    pub active_logical_block: String,
    pub suppliers: Vec<ToolSupplier>,
}

/// Two bytes as a big-endian value.
pub open spec fn be16(hi: u8, lo: u8) -> int {
    hi * 256 + lo
}

/// Four bytes as a big-endian value.
pub open spec fn be32(b: Seq<u8>, at: int) -> int {
    b[at] * 0x1000000 + b[at + 1] * 0x10000 + b[at + 2] * 0x100 + b[at + 3]
}

fn u16_be(hi: u8, lo: u8) -> (r: u16)
    ensures
        r == be16(hi, lo),
{
    let r = (hi as u16) << 8 | lo as u16;
    assert(r == hi * 256 + lo) by (bit_vector) requires r == (hi as u16) << 8 | lo as u16;
    r
}

/// Reads four bytes at `at` as a big-endian value.
pub fn u32_be(b: &[u8], at: usize) -> (r: u32)
    requires
        at + 4 <= b@.len(),
    ensures
        r == be32(b@, at as int),
{
    let b0 = b[at];
    let b1 = b[at + 1];
    let b2 = b[at + 2];
    let b3 = b[at + 3];
    let r = (b0 as u32) << 24 | (b1 as u32) << 16 | (b2 as u32) << 8 | b3 as u32;
    assert(r == b0 * 0x1000000 + b1 * 0x10000 + b2 * 0x100 + b3) by (bit_vector)
        requires r == (b0 as u32) << 24 | (b1 as u32) << 16 | (b2 as u32) << 8 | b3 as u32;
    r
}

/// The size error of an identification reply.
pub open spec fn size_error(expect: usize, actual: int) -> ProtocolError {
    ProtocolError::InvalidResponseSize { expect, actual: actual as usize }
}

/// A date written as two BCD bytes, `a/b`.
pub open spec fn bcd_date2(a: u8, b: u8) -> Seq<char> {
    bcd_text(a) + "/"@ + bcd_text(b)
}

/// Decodes a DCS identification reply, which must be 18 bytes long: part number in
/// bytes 2..=6 (BCD), hardware and software dates in bytes 7-8 and 9-10 (week/year, BCD),
/// supplier in byte 11, diagnostic information in bytes 12-13, production date from
/// bytes 17, 16, 15 (day/month/year, BCD).
pub fn parse_dcs_id(res: &[u8]) -> (r: ProtocolResult<DcsEcuId>)
    ensures
        res@.len() != 18 ==> (r matches Err(e) && e == size_error(18, res@.len() as int)),
        res@.len() == 18 ==> (r matches Ok(id) && {
            &&& id.part_number@ == bcd_text_seq(res@.subrange(2, 7))
            &&& id.hardware_build_date@ == bcd_date2(res@[7], res@[8])
            &&& id.software_written_date@ == bcd_date2(res@[9], res@[10])
            &&& id.supplier_id == res@[11]
            &&& id.diag_information == be16(res@[12], res@[13])
            &&& id.production_date@ == bcd_date2(res@[17], res@[16]) + "/"@ + bcd_text(res@[15])
        }),
{
    if res.len() != 18 {
        return Err(ProtocolError::InvalidResponseSize { expect: 18, actual: res.len() });
    }
    let (_head, tail) = res.split_at(2);
    let (part, _rest) = tail.split_at(5);
    assert(part@ =~= res@.subrange(2, 7));
    proof { reveal_strlit("/"); }
    let mut hw = String::new();
    push_bcd(&mut hw, res[7]);
    push_str(&mut hw, "/");
    push_bcd(&mut hw, res[8]);
    let mut sw = String::new();
    push_bcd(&mut sw, res[9]);
    push_str(&mut sw, "/");
    push_bcd(&mut sw, res[10]);
    let mut prod = String::new();
    push_bcd(&mut prod, res[17]);
    push_str(&mut prod, "/");
    push_bcd(&mut prod, res[16]);
    push_str(&mut prod, "/");
    push_bcd(&mut prod, res[15]);
    Ok(DcsEcuId {
        part_number: bcd_decode_slice(part),
        hardware_build_date: hw,
        software_written_date: sw,
        supplier_id: res[11],
        diag_information: u16_be(res[12], res[13]),
        production_date: prod,
    })
}

/// Takes the bytes `from..to` of a slice.
fn slice_range(s: &[u8], from: usize, to: usize) -> (r: &[u8])
    requires
        from <= to <= s@.len(),
    ensures
        r@ == s@.subrange(from as int, to as int),
{
    let (_a, b) = s.split_at(from);
    let (c, _d) = b.split_at(to - from);
    assert(c@ =~= s@.subrange(from as int, to as int));
    c
}

/// Decodes a DCX/MMC identification reply, which must be 22 bytes long: origin in byte 2,
/// supplier in byte 3, diagnostic information in bytes 4-5, hardware version in bytes 7-8
/// and software version in bytes 9..=11 (BCD), part number in bytes 12.. as UTF-8, or
/// `Unknown` when those bytes are not UTF-8.
pub fn parse_dcx_mmc_id(res: &[u8]) -> (r: ProtocolResult<DcxMmcECUId>)
    ensures
        res@.len() != 22 ==> (r matches Err(e) && e == size_error(22, res@.len() as int)),
        res@.len() == 22 ==> (r matches Ok(id) && {
            &&& id.ecu_origin == res@[2]
            &&& id.supplier_id == res@[3]
            &&& id.diag_information == be16(res@[4], res@[5])
            &&& id.hardware_version@ == bcd_text_seq(res@.subrange(7, 9))
            &&& id.software_version@ == bcd_text_seq(res@.subrange(9, 12))
            &&& id.part_number@ == if valid_utf8(res@.subrange(12, 22)) {
                decode_utf8(res@.subrange(12, 22))
            } else {
                "Unknown"@
            }
        }),
{
    if res.len() != 22 {
        return Err(ProtocolError::InvalidResponseSize { expect: 22, actual: res.len() });
    }
    let part = match utf8_decode(slice_range(res, 12, 22)) {
        Some(s) => s,
        None => String::from_str("Unknown"),
    };
    Ok(DcxMmcECUId {
        ecu_origin: res[2],
        supplier_id: res[3],
        diag_information: u16_be(res[4], res[5]),
        hardware_version: bcd_decode_slice(slice_range(res, 7, 9)),
        software_version: bcd_decode_slice(slice_range(res, 9, 12)),
        part_number: part,
    })
}

/// A reply that carries text from byte 2 on is readable when its text is UTF-8.
pub open spec fn text_reply_readable(res: Seq<u8>, len: int) -> bool {
    res.len() == len ==> valid_utf8(res.subrange(2, len))
}

/// Decodes a reply that carries text from byte 2 on and must be `len` bytes long; a reply
/// of another length gives a size error that reports `len` as the expected size.
fn parse_text_reply(res: &[u8], len: usize) -> (r: ProtocolResult<String>)
    requires
        2 <= len,
        text_reply_readable(res@, len as int),
    ensures
        res@.len() != len ==> (r matches Err(e) && e == size_error(len, res@.len() as int)),
        res@.len() == len ==> (r matches Ok(s) && s@ == decode_utf8(res@.subrange(2, len as int))),
{
    if res.len() != len {
        return Err(ProtocolError::InvalidResponseSize { expect: len, actual: res.len() });
    }
    match utf8_decode(slice_range(res, 2, len)) {
        Some(s) => Ok(s),
        None => {
            proof { assert(false); }
            Err(ProtocolError::Timeout)
        },
    }
}

/// Decodes an original-VIN reply: 19 bytes, the VIN as UTF-8 from byte 2.
pub fn parse_original_vin(res: &[u8]) -> (r: ProtocolResult<String>)
    requires
        text_reply_readable(res@, 19),
    ensures
        res@.len() != 19 ==> (r matches Err(e) && e == size_error(19, res@.len() as int)),
        res@.len() == 19 ==> (r matches Ok(s) && s@ == decode_utf8(res@.subrange(2, 19))),
{
    parse_text_reply(res, 19)
}

/// Decodes a current-VIN reply: 19 bytes, the VIN as UTF-8 from byte 2.
pub fn parse_current_vin(res: &[u8]) -> (r: ProtocolResult<String>)
    requires
        text_reply_readable(res@, 19),
    ensures
        res@.len() != 19 ==> (r matches Err(e) && e == size_error(19, res@.len() as int)),
        res@.len() == 19 ==> (r matches Ok(s) && s@ == decode_utf8(res@.subrange(2, 19))),
{
    parse_text_reply(res, 19)
}

/// Decodes a calibration-ID reply: 18 bytes, the identifier as UTF-8 from byte 2.
pub fn parse_calibration_id(res: &[u8]) -> (r: ProtocolResult<String>)
    requires
        text_reply_readable(res@, 18),
    ensures
        res@.len() != 18 ==> (r matches Err(e) && e == size_error(18, res@.len() as int)),
        res@.len() == 18 ==> (r matches Ok(s) && s@ == decode_utf8(res@.subrange(2, 18))),
{
    parse_text_reply(res, 18)
}

/// Decodes a variant-code reply: 6 bytes, the code as a big-endian value in bytes 2..6.
pub fn parse_variant_code(res: &[u8]) -> (r: ProtocolResult<u32>)
    ensures
        res@.len() != 6 ==> (r matches Err(e) && e == size_error(6, res@.len() as int)),
        res@.len() == 6 ==> (r matches Ok(v) && v == be32(res@, 2)),
{
    if res.len() != 6 {
        return Err(ProtocolError::InvalidResponseSize { expect: 6, actual: res.len() });
    }
    Ok(u32_be(res, 2))
}

/// Decodes a calibration-verification-number reply: 6 bytes, the number in bytes 2..6.
pub fn parse_calibration_verification_number(res: &[u8]) -> (r: ProtocolResult<[u8; 4]>)
    ensures
        res@.len() != 6 ==> (r matches Err(e) && e == size_error(6, res@.len() as int)),
        res@.len() == 6 ==> (r matches Ok(v) && v@ == res@.subrange(2, 6)),
{
    if res.len() != 6 {
        return Err(ProtocolError::InvalidResponseSize { expect: 6, actual: res.len() });
    }
    let v = [res[2], res[3], res[4], res[5]];
    assert(v@ =~= res@.subrange(2, 6));
    Ok(v)
}

/// The text of the active logical block of a fingerprint.
pub open spec fn active_block_text(b: u8) -> Seq<char> {
    if b == 0x00 {
        "No erase performed"@
    } else if b == 0xFE {
        "Erase all memory"@
    } else if b == 0xFF {
        "Reserved"@
    } else {
        "Erase block "@ + decimal(b as nat)
    }
}

/// A fingerprint reply holds nine bytes per module after its first three bytes.
pub open spec fn fingerprint_reply_complete(res: Seq<u8>) -> bool {
    res.len() >= 4 ==> res.len() >= 3 + 9 * res[2]
}

/// The supplier record of module `m` is decoded from its nine bytes, which start at
/// byte `3 + 9 * m` of the reply.
pub open spec fn supplier_decoded(res: Seq<u8>, m: int, t: ToolSupplier) -> bool {
    let at = 3 + 9 * m;
    &&& t.id@ == hex2(res[at])
    &&& t.programming_date@ == bcd_text_seq(res.subrange(at + 1, at + 4))
    &&& t.serial_number@ == hex2(res[at + 4]) + hex2(res[at + 5]) + hex2(res[at + 6]) + hex2(res[at + 7])
}

/// Decodes a code or data fingerprint reply: at least 4 bytes, the number of modules in
/// byte 2 and the active block in byte 3, then one nine-byte record per module starting
/// at byte 3 (so the first record begins with the active block byte).
pub fn parse_fingerprint(res: &[u8]) -> (r: ProtocolResult<CodeFingerprint>)
    requires
        fingerprint_reply_complete(res@),
    ensures
        res@.len() < 4 ==> (r matches Err(e) && e == size_error(4, res@.len() as int)),
        res@.len() >= 4 ==> (r matches Ok(f) && {
            &&& f.num_modules == res@[2]
            &&& f.active_logical_block@ == active_block_text(res@[3])
            &&& f.suppliers@.len() == res@[2]
            &&& forall|m: int| 0 <= m < res@[2] ==> supplier_decoded(res@, m, #[trigger] f.suppliers@[m])
        }),
{
    if res.len() < 4 {
        return Err(ProtocolError::InvalidResponseSize { expect: 4, actual: res.len() });
    }
    let num_modules = res[2];
    let active_block = res[3];
    let active = if active_block == 0x00 {
        String::from_str("No erase performed")
    } else if active_block == 0xFE {
        String::from_str("Erase all memory")
    } else if active_block == 0xFF {
        String::from_str("Reserved")
    } else {
        let mut s = String::new();
        proof { reveal_strlit("Erase block "); }
        push_str(&mut s, "Erase block ");
        push_decimal(&mut s, active_block as u64);
        s
    };
    let mut suppliers: Vec<ToolSupplier> = Vec::new();
    let mut m: usize = 0;
    while m < num_modules as usize
        invariant
            num_modules == res@[2],
            res@.len() >= 3 + 9 * res@[2],
            m <= num_modules,
            suppliers@.len() == m,
            forall|j: int| 0 <= j < m ==> supplier_decoded(res@, j, #[trigger] suppliers@[j]),
        decreases num_modules - m,
    {
        let at = 3 + 9 * m;
        let mut serial = String::new();
        push_hex2(&mut serial, res[at + 4]);
        push_hex2(&mut serial, res[at + 5]);
        push_hex2(&mut serial, res[at + 6]);
        push_hex2(&mut serial, res[at + 7]);
        let mut id = String::new();
        push_hex2(&mut id, res[at]);
        suppliers.push(ToolSupplier {
            id,
            programming_date: bcd_decode_slice(slice_range(res, at + 1, at + 4)),
            serial_number: serial,
        });
        m = m + 1;
    }
    Ok(CodeFingerprint { num_modules: num_modules as u32, active_logical_block: active, suppliers })
}

} // verus!
