//! OBD-II service 03: stored trouble codes.

use vstd::prelude::*;
use crate::text::{push_str, push_hex1, push_hex_space2, hex_char, hex_space_padded};
use crate::protocols::{DTC, DTCState};
use crate::protocols::obd2::dtc_letter;

verus! {

/// Service 03 of an ECU.
#[derive(Debug, Clone, Copy, PartialEq, Eq, Structural)]
pub struct Service03;

/// The text of a trouble code as service 03 writes it: the letter, two single hex digits
/// from bits 4-5 and 2-3 of the first byte, and the second byte as hex padded with a
/// space to two characters.
pub open spec fn s03_dtc_text(a: u8, b: u8) -> Seq<char> {
    seq![dtc_letter(a), hex_char(((a / 16) % 4) as int), hex_char(((a / 4) % 4) as int)]
        + hex_space_padded(b as nat, 2)
}

/// A service 03 code text names its system by the top two bits of its first byte:
/// 0x00-0x3F `P`, 0x40-0x7F `C`, 0x80-0xBF `B`, 0xC0-0xFF `U`.
pub proof fn lemma_s03_system_letter(a: u8, b: u8)
    ensures
        a < 0x40 ==> s03_dtc_text(a, b)[0] == 'P',
        0x40 <= a < 0x80 ==> s03_dtc_text(a, b)[0] == 'C',
        0x80 <= a < 0xC0 ==> s03_dtc_text(a, b)[0] == 'B',
        0xC0 <= a ==> s03_dtc_text(a, b)[0] == 'U',
{
}

/// A service 03 reply is complete: service byte, count, then two bytes per code.
pub open spec fn s03_reply_complete(bytes: Seq<u8>) -> bool {
    bytes.len() >= 2 && bytes.len() >= 2 + 2 * bytes[1]
}

impl Service03 {
    /// The service byte of a request for the stored trouble codes.
    pub fn request_byte() -> (r: u8)
        ensures
            r == 0x03,
    {
        0x03
    }

    /// Decodes the stored trouble codes from a reply: the count in byte 1, then two bytes
    /// per code. Every code is stored with the lamp on; its identifier is its second byte.
    pub fn decode_dtcs(bytes: &[u8]) -> (r: Vec<DTC>)
        requires
            s03_reply_complete(bytes@),
        ensures
            r@.len() == bytes@[1],
            forall|k: int| 0 <= k < r@.len() ==> {
                let a = bytes@[2 + 2 * k];
                let b = bytes@[3 + 2 * k];
                &&& (#[trigger] r@[k]).error@ == s03_dtc_text(a, b)
                &&& r@[k].state == DTCState::Stored
                &&& r@[k].check_engine_on
                &&& r@[k].id == b
            },
    {
        let num_dtcs = bytes[1];
        let mut res: Vec<DTC> = Vec::new();
        let mut k: usize = 0;
        while k < num_dtcs as usize
            invariant
                num_dtcs == bytes@[1],
                s03_reply_complete(bytes@),
                k <= num_dtcs,
                res@.len() == k,
                forall|j: int| 0 <= j < k ==> {
                    let a = bytes@[2 + 2 * j];
                    let b = bytes@[3 + 2 * j];
                    &&& (#[trigger] res@[j]).error@ == s03_dtc_text(a, b)
                    &&& res@[j].state == DTCState::Stored
                    &&& res@[j].check_engine_on
                    &&& res@[j].id == b
                },
            decreases num_dtcs - k,
        {
            let a = bytes[2 + 2 * k];
            let b = bytes[3 + 2 * k];
            let top = (a >> 6) & 0b0000011;
            let n1 = (a >> 4) & 0b0000011;
            let n2 = (a >> 2) & 0b0000011;
            assert(top == a / 64 && n1 == (a / 16) % 4 && n2 == (a / 4) % 4) by (bit_vector)
                requires
                    top == (a >> 6) & 0b0000011,
                    n1 == (a >> 4) & 0b0000011,
                    n2 == (a >> 2) & 0b0000011;
            let prefix: &str = match top {
                1 => "C",
                2 => "B",
                3 => "U",
                _ => "P",
            };
            proof { reveal_strlit("P"); reveal_strlit("C"); reveal_strlit("B"); reveal_strlit("U"); }
            let mut error = String::new();
            push_str(&mut error, prefix);
            push_hex1(&mut error, n1);
            push_hex1(&mut error, n2);
            push_hex_space2(&mut error, b);
            assert(error@ =~= s03_dtc_text(a, b));
            res.push(DTC { error, state: DTCState::Stored, check_engine_on: true, id: b as u32 });
            k = k + 1;
        }
        res
    }
}

} // verus!
