//! OBD-II service 09: vehicle information (VIN, calibration, ECU name).

use vstd::prelude::*;
use vstd::string::*;
use crate::text::{push_hex2, hex2, utf8_decode_lossy, utf8_lossy};
use crate::protocols::{ProtocolError, ECUError};
use crate::protocols::obd2::{ObdError, OBDError, get_obd_bits, obd_bits};

verus! {

/// Service 09 of an ECU: which information items it supports.
#[derive(Debug, Clone)]
pub struct Service09 {
    supported_pids: Vec<bool>,
}

/// What service 09 found, with `Not Supported` for items that could not be read.
#[derive(Debug, Clone, Default)]
pub struct Service09Data {
    pub vin: String,
    pub calibration_id: String,
    pub cvns: Vec<String>,
    pub ecu_name: String,
}

/// An item is supported when its bit (item 1 is bit 0) is set.
pub open spec fn item_supported(bits: Seq<bool>, pid: u8) -> bool {
    1 <= pid && pid - 1 < bits.len() && bits[pid - 1]
}

/// The text an item reply carries (the bytes after service and item), with invalid UTF-8
/// replaced.
pub open spec fn item_text(res: Seq<u8>) -> Seq<char> {
    utf8_lossy(res.subrange(2, res.len() as int))
}

/// A calibration verification number as eight hex digits.
pub open spec fn cvn_text(b: Seq<u8>, at: int) -> Seq<char> {
    hex2(b[at]) + hex2(b[at + 1]) + hex2(b[at + 2]) + hex2(b[at + 3])
}

impl Service09 {
    /// The support bits, item 1 first.
    pub closed spec fn bits(&self) -> Seq<bool> {
        self.supported_pids@
    }

    /// The service as learnt from the reply to a request for item 0x00: the support bits
    /// are the bytes after service and item.
    pub fn from_reply(res: &[u8]) -> (r: Self)
        requires
            res@.len() >= 2,
            8 * res@.len() <= usize::MAX,
        ensures
            r.bits() == obd_bits(res@.subrange(2, res@.len() as int)),
    {
        let (_head, tail) = res.split_at(2);
        assert(tail@ =~= res@.subrange(2, res@.len() as int));
        Service09 { supported_pids: get_obd_bits(tail) }
    }

    /// Whether the ECU supports an item; item 0 is the support query itself.
    pub fn check_service_supported(&self, pid: u8) -> (r: OBDError<()>)
        requires
            pid >= 1,
        ensures
            item_supported(self.bits(), pid) ==> r is Ok,
            !item_supported(self.bits(), pid) ==> (r matches Err(e) && e == ProtocolError::ProtocolError(ECUError::OBD(ObdError::CmdNotSupported))),
    {
        let idx = (pid - 1) as usize;
        if idx < self.supported_pids.len() && self.supported_pids[idx] {
            Ok(())
        } else {
            Err(ProtocolError::ProtocolError(ECUError::OBD(ObdError::CmdNotSupported)))
        }
    }

    /// The number of messages the VIN takes, from the reply to item 0x01.
    pub fn vin_msg_count_from_reply(res: &[u8]) -> (r: u8)
        requires
            res@.len() >= 3,
        ensures
            r == res@[2],
    {
        res[2]
    }

    /// The text of a reply to items 0x02 (VIN), 0x04 (calibration ID) or 0x0A (ECU name).
    pub fn text_from_reply(res: &[u8]) -> (r: String)
        requires
            res@.len() >= 2,
        ensures
            r@ == item_text(res@),
    {
        let (_head, tail) = res.split_at(2);
        assert(tail@ =~= res@.subrange(2, res@.len() as int));
        utf8_decode_lossy(tail)
    }

    /// Decodes the calibration verification numbers from the reply to item 0x06: the count
    /// in byte 2, then four bytes per number. A reply whose length does not match the count
    /// is an error that reports the expected reply length and the reply's actual length.
    pub fn cvns_from_reply(res: &[u8]) -> (r: OBDError<Vec<String>>)
        requires
            res@.len() >= 3,
            res@[2] * 4 <= 255,
        ensures
            res@.len() - 3 == 4 * res@[2] ==> (r matches Ok(v) && v@.len() == res@[2]
                && forall|k: int| 0 <= k < v@.len() ==> (#[trigger] v@[k])@ == cvn_text(res@, 3 + 4 * k)),
            res@.len() - 3 != 4 * res@[2] ==> (r matches Err(e) && e == (ProtocolError::InvalidResponseSize {
                expect: (3 + 4 * res@[2]) as usize,
                actual: res@.len() as usize,
            })),
    {
        let count = res[2];
        let raw_len = res.len() - 3;
        if raw_len == (count * 4) as usize {
            let mut out: Vec<String> = Vec::new();
            let mut k: usize = 0;
            while k < count as usize
                invariant
                    count == res@[2],
                    res@.len() - 3 == 4 * count,
                    k <= count,
                    out@.len() == k,
                    forall|j: int| 0 <= j < k ==> (#[trigger] out@[j])@ == cvn_text(res@, 3 + 4 * j),
                decreases count - k,
            {
                let at = 3 + 4 * k;
                let mut s = String::new();
                push_hex2(&mut s, res[at]);
                push_hex2(&mut s, res[at + 1]);
                push_hex2(&mut s, res[at + 2]);
                push_hex2(&mut s, res[at + 3]);
                out.push(s);
                k = k + 1;
            }
            Ok(out)
        } else {
            Err(ProtocolError::InvalidResponseSize { expect: 3 + (count * 4) as usize, actual: res.len() })
        }
    }
}

impl Service09Data {
    /// Gathers what service 09 read: each text item falls back to `Not Supported` and the
    /// verification numbers to an empty list when they could not be read.
    pub fn from_results(
        vin: OBDError<String>,
        calibration_id: OBDError<String>,
        cvns: OBDError<Vec<String>>,
        ecu_name: OBDError<String>,
    ) -> (r: Self)
        ensures
            r.vin@ == match vin { Ok(s) => s@, Err(_) => "Not Supported"@ },
            r.calibration_id@ == match calibration_id { Ok(s) => s@, Err(_) => "Not Supported"@ },
            r.cvns@ == match cvns { Ok(v) => v@, Err(_) => Seq::<String>::empty() },
            r.ecu_name@ == match ecu_name { Ok(s) => s@, Err(_) => "Not Supported"@ },
    {
        Service09Data {
            vin: match vin { Ok(s) => s, Err(_) => String::from_str("Not Supported") },
            calibration_id: match calibration_id { Ok(s) => s, Err(_) => String::from_str("Not Supported") },
            cvns: match cvns { Ok(v) => v, Err(_) => Vec::new() },
            ecu_name: match ecu_name { Ok(s) => s, Err(_) => String::from_str("Not Supported") },
        }
    }
}

} // verus!
