//! Hexadecimal values typed by a user: a custom request as bytes separated by single
//! spaces (`10 92`), and a CAN address (`7E0`). A value is read the way Rust's
//! `from_str_radix` with radix 16 reads it: an optional leading `+`, then at least one
//! hexadecimal digit of either case, and a value that fits the type.

use vstd::prelude::*;
use vstd::string::*;
use crate::text::push_str;

verus! {

/// The value of a hexadecimal digit, if `c` is one.
pub open spec fn hex_digit(c: char) -> Option<u32> {
    if '0' <= c <= '9' {
        Some((c as u32 - '0' as u32) as u32)
    } else if 'a' <= c <= 'f' {
        Some((c as u32 - 'a' as u32 + 10) as u32)
    } else if 'A' <= c <= 'F' {
        Some((c as u32 - 'A' as u32 + 10) as u32)
    } else {
        None
    }
}

/// Every character is a hexadecimal digit.
pub open spec fn all_hex(s: Seq<char>) -> bool {
    forall|i: int| 0 <= i < s.len() ==> (#[trigger] hex_digit(s[i])) is Some
}

/// The value of a run of hexadecimal digits, most significant first.
pub open spec fn hex_value(s: Seq<char>) -> int
    decreases s.len(),
{
    if s.len() == 0 {
        0
    } else {
        hex_value(s.drop_last()) * 16 + match hex_digit(s.last()) { Some(d) => d as int, None => 0 }
    }
}

/// The digits of a token: the token without its leading `+`, if it has one.
pub open spec fn token_digits(s: Seq<char>) -> Seq<char> {
    if s.len() > 0 && s[0] == '+' { s.drop_first() } else { s }
}

/// The value a token stands for, when it is a hexadecimal number of at most `max`.
pub open spec fn hex_token(s: Seq<char>, max: int) -> Option<int> {
    let d = token_digits(s);
    if d.len() > 0 && all_hex(d) && hex_value(d) <= max { Some(hex_value(d)) } else { None }
}

/// The pieces of a text between single spaces, as `str::split(" ")` gives them: an empty
/// text is one empty piece, and two spaces in a row enclose an empty piece.
pub open spec fn split_spaces(s: Seq<char>) -> Seq<Seq<char>>
    decreases s.len(),
{
    if s.len() == 0 {
        seq![Seq::empty()]
    } else {
        let rest = split_spaces(s.drop_last());
        if s.last() == ' ' {
            rest.push(Seq::empty())
        } else {
            rest.update(rest.len() - 1, rest.last().push(s.last()))
        }
    }
}

/// Splitting always gives at least one piece.
proof fn lemma_split_nonempty(s: Seq<char>)
    ensures
        split_spaces(s).len() >= 1,
    decreases s.len(),
{
    if s.len() > 0 {
        lemma_split_nonempty(s.drop_last());
    }
}

/// Every piece is a byte value.
pub open spec fn all_bytes(tokens: Seq<Seq<char>>) -> bool {
    forall|i: int| 0 <= i < tokens.len() ==> (#[trigger] hex_token(tokens[i], 0xFF)) is Some
}

/// The request a text stands for: the byte of every piece when every piece is a byte
/// value, or nothing at all when one of them is not.
pub open spec fn payload_of(s: Seq<char>) -> Seq<u8> {
    let tokens = split_spaces(s);
    if all_bytes(tokens) {
        Seq::new(tokens.len(), |i: int| hex_token(tokens[i], 0xFF)->Some_0 as u8)
    } else {
        Seq::empty()
    }
}

/// The value of a digit character.
fn digit_value(c: char) -> (r: Option<u32>)
    ensures
        r == hex_digit(c),
{
    if '0' <= c && c <= '9' {
        Some(c as u32 - '0' as u32)
    } else if 'a' <= c && c <= 'f' {
        Some(c as u32 - 'a' as u32 + 10)
    } else if 'A' <= c && c <= 'F' {
        Some(c as u32 - 'A' as u32 + 10)
    } else {
        None
    }
}

/// A longer run of digits never has a smaller value.
proof fn lemma_hex_value_grows(s: Seq<char>, c: char)
    requires
        hex_digit(c) is Some,
    ensures
        hex_value(s.push(c)) >= hex_value(s),
        hex_value(s.push(c)) == hex_value(s) * 16 + hex_digit(c)->Some_0,
        hex_value(s) >= 0,
    decreases s.len(),
{
    assert(s.push(c).drop_last() =~= s);
    lemma_hex_value_nonneg(s);
}

proof fn lemma_hex_value_nonneg(s: Seq<char>)
    ensures
        hex_value(s) >= 0,
    decreases s.len(),
{
    if s.len() > 0 {
        lemma_hex_value_nonneg(s.drop_last());
    }
}

/// Reads one token as a hexadecimal number of at most `max`.
fn read_token(tok: &Vec<char>, max: u32) -> (r: Option<u32>)
    ensures
        match (r, hex_token(tok@, max as int)) {
            (Some(v), Some(w)) => v == w,
            (None, None) => true,
            _ => false,
        },
{
    let start: usize = if tok.len() > 0 && tok[0] == '+' { 1 } else { 0 };
    let ghost d = token_digits(tok@);
    assert(d =~= tok@.subrange(start as int, tok@.len() as int));
    if start >= tok.len() {
        return None;
    }
    let mut value: u64 = 0;
    let mut over = false;
    let mut i = start;
    while i < tok.len()
        invariant
            start <= i <= tok@.len(),
            d == token_digits(tok@),
            d == tok@.subrange(start as int, tok@.len() as int),
            all_hex(tok@.subrange(start as int, i as int)),
            over ==> hex_value(tok@.subrange(start as int, i as int)) > max,
            !over ==> value == hex_value(tok@.subrange(start as int, i as int)) && value <= max,
        decreases tok@.len() - i,
    {
        let ghost prev = tok@.subrange(start as int, i as int);
        let ghost next = tok@.subrange(start as int, i + 1);
        assert(next =~= prev.push(tok@[i as int]));
        match digit_value(tok[i]) {
            None => {
                proof {
                    let k = i - start;
                    assert(d[k] == tok@[i as int]);
                    assert(hex_digit(d[k]) is None);
                    assert(!all_hex(d));
                    assert(hex_token(tok@, max as int) is None);
                }
                return None;
            },
            Some(dig) => {
                proof {
                    lemma_hex_value_grows(prev, tok@[i as int]);
                    assert forall|j: int| 0 <= j < next.len() implies (#[trigger] hex_digit(next[j])) is Some by {
                        if j < prev.len() {
                            assert(next[j] == prev[j]);
                        }
                    }
                }
                if !over {
                    let v = value * 16 + dig as u64;
                    if v > max as u64 {
                        over = true;
                    } else {
                        value = v;
                    }
                }
            },
        }
        i = i + 1;
    }
    if over {
        None
    } else {
        Some(value as u32)
    }
}

/// Reads a request typed as hexadecimal bytes separated by single spaces (`10 92`); when
/// any piece is not a byte value (an empty piece included) the request is empty.
pub fn parse_hex_payload(text: &str) -> (r: Vec<u8>)
    ensures
        r@ == payload_of(text@),
{
    let n = text.unicode_len();
    let mut out: Vec<u8> = Vec::new();
    let mut tok: Vec<char> = Vec::new();
    let mut ok = true;
    let mut i: usize = 0;
    proof { lemma_split_nonempty(text@.subrange(0, 0)); }
    while i < n
        invariant
            n == text@.len(),
            i <= n,
            ({
                let tokens = split_spaces(text@.subrange(0, i as int));
                &&& tokens.len() >= 1
                &&& tok@ == tokens.last()
                &&& ok == all_bytes(tokens.drop_last())
                &&& ok ==> out@.len() == tokens.len() - 1
                &&& ok ==> forall|k: int| 0 <= k < out@.len() ==>
                    out@[k] == hex_token(#[trigger] tokens[k], 0xFF)->Some_0 as u8
            }),
        decreases n - i,
    {
        let c = text.get_char(i);
        let ghost before = split_spaces(text@.subrange(0, i as int));
        let ghost s1 = text@.subrange(0, i + 1);
        proof {
            assert(s1.drop_last() =~= text@.subrange(0, i as int));
            assert(s1.last() == c);
            lemma_split_nonempty(text@.subrange(0, i as int));
        }
        if c == ' ' {
            let v = read_token(&tok, 0xFF);
            proof {
                let after = split_spaces(s1);
                assert(after == before.push(Seq::empty()));
                assert(after.drop_last() =~= before);
                assert(before.drop_last().push(before.last()) =~= before);
            }
            match v {
                Some(b) => {
                    if ok {
                        out.push(b as u8);
                    }
                },
                None => {
                    ok = false;
                },
            }
            tok = Vec::new();
        } else {
            tok.push(c);
            proof {
                let after = split_spaces(s1);
                assert(after.drop_last() =~= before.drop_last());
            }
        }
        i = i + 1;
    }
    assert(text@.subrange(0, n as int) =~= text@);
    let last = read_token(&tok, 0xFF);
    let ghost tokens = split_spaces(text@);
    proof {
        assert(tokens.drop_last().push(tokens.last()) =~= tokens);
    }
    match last {
        Some(b) => {
            if ok {
                out.push(b as u8);
                assert(out@ =~= payload_of(text@));
                out
            } else {
                assert(!all_bytes(tokens));
                Vec::new()
            }
        },
        None => {
            assert(!all_bytes(tokens)) by {
                assert(hex_token(tokens[tokens.len() - 1], 0xFF) is None);
            }
            assert(payload_of(text@) =~= Seq::<u8>::empty());
            Vec::new()
        },
    }
}

/// Reads a CAN address typed in hexadecimal (`7E0`); text that is not a 32-bit
/// hexadecimal value gives the message `'{text}' is not a valid hex input`.
pub fn parse_hex_address(text: &str) -> (r: Result<u32, String>)
    ensures
        match hex_token(text@, 0xFFFF_FFFF) {
            Some(v) => r matches Ok(a) && a == v,
            None => r matches Err(m) && m@ == "'"@ + text@ + "' is not a valid hex input"@,
        },
{
    let n = text.unicode_len();
    let mut tok: Vec<char> = Vec::new();
    let mut i: usize = 0;
    while i < n
        invariant
            n == text@.len(),
            i <= n,
            tok@ == text@.subrange(0, i as int),
        decreases n - i,
    {
        tok.push(text.get_char(i));
        i = i + 1;
    }
    assert(tok@ =~= text@);
    match read_token(&tok, 0xFFFF_FFFF) {
        Some(v) => Ok(v),
        None => {
            let mut m = String::new();
            proof { reveal_strlit("'"); reveal_strlit("' is not a valid hex input"); }
            push_str(&mut m, "'");
            push_str(&mut m, text);
            push_str(&mut m, "' is not a valid hex input");
            Err(m)
        },
    }
}

/// The name of an OBD-II service, for services 0x01 to 0x0A.
pub open spec fn obd_sid_name(sid: u8) -> Seq<char> {
    if sid == 0x01 { "OBD ShowCurrentData"@ }
    else if sid == 0x02 { "OBD ShowFreezeFrameData"@ }
    else if sid == 0x03 { "OBD ShowStoredDTCs"@ }
    else if sid == 0x04 { "OBD ClearDTCs"@ }
    else if sid == 0x05 { "OBD O2TestResultsNonCAN"@ }
    else if sid == 0x06 { "OBD ComponentTestResultsCAN"@ }
    else if sid == 0x07 { "OBD ShowPendingDTCs"@ }
    else if sid == 0x08 { "OBD ControlOnBoardSystem"@ }
    else if sid == 0x09 { "OBD RequestVehicleInfo"@ }
    else if sid == 0x0A { "OBD ShowPermanentDTCs"@ }
    else { "UNKNOWN OBD SID!"@ }
}

/// The name of an OBD-II service (`UNKNOWN OBD SID!` outside 0x01..=0x0A).
pub fn obd_service_name(sid: u8) -> (r: &'static str)
    ensures
        r@ == obd_sid_name(sid),
{
    match sid {
        0x01 => "OBD ShowCurrentData",
        0x02 => "OBD ShowFreezeFrameData",
        0x03 => "OBD ShowStoredDTCs",
        0x04 => "OBD ClearDTCs",
        0x05 => "OBD O2TestResultsNonCAN",
        0x06 => "OBD ComponentTestResultsCAN",
        0x07 => "OBD ShowPendingDTCs",
        0x08 => "OBD ControlOnBoardSystem",
        0x09 => "OBD RequestVehicleInfo",
        0x0A => "OBD ShowPermanentDTCs",
        _ => "UNKNOWN OBD SID!",
    }
}

/// A service probed by sending its identifier alone counts as supported unless the ECU
/// answered with the negative code 0x11 (service not supported).
pub fn sid_supported(negative_code: Option<u8>) -> (r: bool)
    ensures
        r == !(negative_code == Some(0x11u8)),
{
    match negative_code {
        Some(c) => c != 0x11,
        None => true,
    }
}

} // verus!
