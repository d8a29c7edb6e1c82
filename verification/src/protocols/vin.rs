//! Vehicle identification numbers: the maker and country from the first three
//! characters, the model year from the tenth.

use vstd::prelude::*;
use vstd::string::*;
use vstd::utf8::{encode_utf8, is_char_boundary};

verus! {

/// A decoded vehicle identification number.
#[derive(Debug, Clone)]
pub struct Vin {
    pub raw: String,
    pub year: u32,
    pub manufacture_location: String,
    pub manufacture_name: String,
}

/// The model year that a year character stands for, or 0 for an unknown character.
pub open spec fn vin_year(id: char) -> u32 {
    if id == 'Y' { 2000 }
    else if id == '1' { 2001 }
    else if id == '2' { 2002 }
    else if id == '3' { 2003 }
    else if id == '4' { 2004 }
    else if id == '5' { 2005 }
    else if id == '6' { 2006 }
    else if id == '7' { 2007 }
    else if id == '8' { 2008 }
    else if id == '9' { 2009 }
    else if id == 'A' { 2010 }
    else if id == 'B' { 2011 }
    else if id == 'C' { 2012 }
    else if id == 'D' { 2013 }
    else if id == 'E' { 2014 }
    else if id == 'F' { 2015 }
    else if id == 'G' { 2016 }
    else if id == 'H' { 2017 }
    else if id == 'J' { 2018 }
    else if id == 'K' { 2019 }
    else if id == 'L' { 2020 }
    else if id == 'M' { 2021 }
    else if id == 'N' { 2022 }
    else if id == 'P' { 2023 }
    else if id == 'R' { 2024 }
    else if id == 'S' { 2025 }
    else if id == 'T' { 2026 }
    else if id == 'V' { 2027 }
    else if id == 'W' { 2028 }
    else if id == 'X' { 2029 }
    else { 0 }
}

/// The thirty model-year characters in the order the years follow one another
/// (I, O, Q, U, Z and 0 are never used).
pub open spec fn model_year_cycle() -> Seq<char> {
    seq!['Y', '1', '2', '3', '4', '5', '6', '7', '8', '9', 'A', 'B', 'C', 'D', 'E',
        'F', 'G', 'H', 'J', 'K', 'L', 'M', 'N', 'P', 'R', 'S', 'T', 'V', 'W', 'X']
}

/// Every model-year character decodes to a year, the first of the cycle to 2000 and each
/// next one to the year after; the characters outside the cycle decode to no year (0).
pub proof fn lemma_model_years_consecutive()
    ensures
        model_year_cycle().len() == 30,
        vin_year(model_year_cycle()[0]) == 2000,
        forall|i: int| 0 <= i < 29 ==> vin_year(#[trigger] model_year_cycle()[i + 1]) == vin_year(model_year_cycle()[i]) + 1,
        forall|i: int| 0 <= i < 30 ==> vin_year(#[trigger] model_year_cycle()[i]) != 0,
        forall|c: char| !model_year_cycle().contains(c) ==> vin_year(c) == 0,
{
    let s = model_year_cycle();
    assert(s.len() == 30);
    assert forall|i: int| 0 <= i < 30 implies vin_year(#[trigger] s[i]) == 2000 + i by {
        assert(s[0] == 'Y'); assert(s[1] == '1'); assert(s[2] == '2'); assert(s[3] == '3');
        assert(s[4] == '4'); assert(s[5] == '5'); assert(s[6] == '6'); assert(s[7] == '7');
        assert(s[8] == '8'); assert(s[9] == '9'); assert(s[10] == 'A'); assert(s[11] == 'B');
        assert(s[12] == 'C'); assert(s[13] == 'D'); assert(s[14] == 'E'); assert(s[15] == 'F');
        assert(s[16] == 'G'); assert(s[17] == 'H'); assert(s[18] == 'J'); assert(s[19] == 'K');
        assert(s[20] == 'L'); assert(s[21] == 'M'); assert(s[22] == 'N'); assert(s[23] == 'P');
        assert(s[24] == 'R'); assert(s[25] == 'S'); assert(s[26] == 'T'); assert(s[27] == 'V');
        assert(s[28] == 'W'); assert(s[29] == 'X');
    }
    assert forall|i: int| 0 <= i < 29 implies vin_year(#[trigger] s[i + 1]) == vin_year(s[i]) + 1 by {
        assert(vin_year(s[i + 1]) == 2000 + (i + 1));
        assert(vin_year(s[i]) == 2000 + i);
    }
    assert forall|c: char| !s.contains(c) implies vin_year(c) == 0 by {
        if vin_year(c) != 0 {
            if c == 'Y' { assert(s[0] == c); } else if c == '1' { assert(s[1] == c); }
            else if c == '2' { assert(s[2] == c); } else if c == '3' { assert(s[3] == c); }
            else if c == '4' { assert(s[4] == c); } else if c == '5' { assert(s[5] == c); }
            else if c == '6' { assert(s[6] == c); } else if c == '7' { assert(s[7] == c); }
            else if c == '8' { assert(s[8] == c); } else if c == '9' { assert(s[9] == c); }
            else if c == 'A' { assert(s[10] == c); } else if c == 'B' { assert(s[11] == c); }
            else if c == 'C' { assert(s[12] == c); } else if c == 'D' { assert(s[13] == c); }
            else if c == 'E' { assert(s[14] == c); } else if c == 'F' { assert(s[15] == c); }
            else if c == 'G' { assert(s[16] == c); } else if c == 'H' { assert(s[17] == c); }
            else if c == 'J' { assert(s[18] == c); } else if c == 'K' { assert(s[19] == c); }
            else if c == 'L' { assert(s[20] == c); } else if c == 'M' { assert(s[21] == c); }
            else if c == 'N' { assert(s[22] == c); } else if c == 'P' { assert(s[23] == c); }
            else if c == 'R' { assert(s[24] == c); } else if c == 'S' { assert(s[25] == c); }
            else if c == 'T' { assert(s[26] == c); } else if c == 'V' { assert(s[27] == c); }
            else if c == 'W' { assert(s[28] == c); } else if c == 'X' { assert(s[29] == c); }
        }
    }
}

/// The country and maker of a world manufacturer identifier (three bytes).
pub open spec fn wmi_info(b: Seq<u8>) -> (Seq<char>, Seq<char>) {
    if (b[0] == 65 && b[1] == 65 && b[2] == 86) { ("South Africa"@, "Volkswagen"@) }
    else if (b[0] == 65 && b[1] == 68 && b[2] == 77) { ("South Africa"@, "General Motors of South Africa"@) }
    else if (b[0] == 65 && b[1] == 68 && b[2] == 78) { ("South Africa"@, "Nissan South Africa (Pty) Ltd"@) }
    else if (b[0] == 65 && b[1] == 72 && b[2] == 84) { ("South Africa"@, "Toyota"@) }
    else if (b[0] == 65 && b[1] == 70 && b[2] == 65) { ("South Africa"@, "Ford"@) }
    else if (b[0] == 66 && b[1] == 70 && b[2] == 57) { ("Kenya"@, "KIBO Motorcycles"@) }
    else if (b[0] == 67 && b[1] == 76 && b[2] == 57) { ("Tunisia"@, "Wallyscar"@) }
    else if (b[0] == 68 && b[1] == 65 && b[2] == 49) || (b[0] == 68 && b[1] == 65 && b[2] == 52) { ("Egypt"@, "Arab American Vehicles Company"@) }
    else if (b[0] == 74 && b[1] == 72 && b[2] == 76) || (b[0] == 74 && b[1] == 72 && b[2] == 77) { ("Japan"@, "Honda"@) }
    else if (b[0] == 74 && b[1] == 76 && b[2] == 53) { ("Japan"@, "Mitsubishi FUSO Truck & Bus Corp"@) }
    else if (b[0] == 74 && b[1] == 77 && b[2] == 48) { ("Japan"@, "Mazda for Oceania export"@) }
    else if (b[0] == 74 && b[1] == 77 && b[2] == 49) { ("Japan"@, "Mazda"@) }
    else if (b[0] == 74 && b[1] == 77 && b[2] == 66) { ("Japan"@, "Mitsubishi"@) }
    else if (b[0] == 74 && b[1] == 77 && b[2] == 54) { ("Japan"@, "Mazda"@) }
    else if b[0] == 74 && b[1] == 78 { ("Japan"@, "Nissan"@) }
    else if b[0] == 74 && b[1] == 83 { ("Japan"@, "Suzuki"@) }
    else if b[0] == 74 && b[1] == 84 { ("Japan"@, "Toyota/Lexus"@) }
    else if b[0] == 74 && b[1] == 89 { ("Japan"@, "Yamaha"@) }
    else if (b[0] == 87 && b[1] == 68 && b[2] == 66) { ("Germany"@, "Mercedes-Benz"@) }
    else if (b[0] == 87 && b[1] == 68 && b[2] == 67) || (b[0] == 87 && b[1] == 68 && b[2] == 68) || (b[0] == 87 && b[1] == 77 && b[2] == 88) { ("Germany"@, "Daimler AG"@) }
    else { ("Unknown"@, "Unknown"@) }
}

impl Vin {
    /// The model year that a year character stands for, or 0.
    pub fn get_year(id: char) -> (r: u32)
        ensures
            r == vin_year(id),
    {
        match id {
            'Y' => 2000,
            '1' => 2001,
            '2' => 2002,
            '3' => 2003,
            '4' => 2004,
            '5' => 2005,
            '6' => 2006,
            '7' => 2007,
            '8' => 2008,
            '9' => 2009,
            'A' => 2010,
            'B' => 2011,
            'C' => 2012,
            'D' => 2013,
            'E' => 2014,
            'F' => 2015,
            'G' => 2016,
            'H' => 2017,
            'J' => 2018,
            'K' => 2019,
            'L' => 2020,
            'M' => 2021,
            'N' => 2022,
            'P' => 2023,
            'R' => 2024,
            'S' => 2025,
            'T' => 2026,
            'V' => 2027,
            'W' => 2028,
            'X' => 2029,
            _ => 0,
        }
    }

    /// The country and maker of a world manufacturer identifier (its three bytes).
    pub fn get_wmi(b: &[u8]) -> (r: (String, String))
        requires
            b@.len() == 3,
        ensures
            r.0@ == wmi_info(b@).0,
            r.1@ == wmi_info(b@).1,
    {
        let (l, m): (&str, &str) =
            if (b[0] == 65 && b[1] == 65 && b[2] == 86) { ("South Africa", "Volkswagen")
            } else if (b[0] == 65 && b[1] == 68 && b[2] == 77) { ("South Africa", "General Motors of South Africa")
            } else if (b[0] == 65 && b[1] == 68 && b[2] == 78) { ("South Africa", "Nissan South Africa (Pty) Ltd")
            } else if (b[0] == 65 && b[1] == 72 && b[2] == 84) { ("South Africa", "Toyota")
            } else if (b[0] == 65 && b[1] == 70 && b[2] == 65) { ("South Africa", "Ford")
            } else if (b[0] == 66 && b[1] == 70 && b[2] == 57) { ("Kenya", "KIBO Motorcycles")
            } else if (b[0] == 67 && b[1] == 76 && b[2] == 57) { ("Tunisia", "Wallyscar")
            } else if (b[0] == 68 && b[1] == 65 && b[2] == 49) || (b[0] == 68 && b[1] == 65 && b[2] == 52) { ("Egypt", "Arab American Vehicles Company")
            } else if (b[0] == 74 && b[1] == 72 && b[2] == 76) || (b[0] == 74 && b[1] == 72 && b[2] == 77) { ("Japan", "Honda")
            } else if (b[0] == 74 && b[1] == 76 && b[2] == 53) { ("Japan", "Mitsubishi FUSO Truck & Bus Corp")
            } else if (b[0] == 74 && b[1] == 77 && b[2] == 48) { ("Japan", "Mazda for Oceania export")
            } else if (b[0] == 74 && b[1] == 77 && b[2] == 49) { ("Japan", "Mazda")
            } else if (b[0] == 74 && b[1] == 77 && b[2] == 66) { ("Japan", "Mitsubishi")
            } else if (b[0] == 74 && b[1] == 77 && b[2] == 54) { ("Japan", "Mazda")
            } else if b[0] == 74 && b[1] == 78 { ("Japan", "Nissan")
            } else if b[0] == 74 && b[1] == 83 { ("Japan", "Suzuki")
            } else if b[0] == 74 && b[1] == 84 { ("Japan", "Toyota/Lexus")
            } else if b[0] == 74 && b[1] == 89 { ("Japan", "Yamaha")
            } else if (b[0] == 87 && b[1] == 68 && b[2] == 66) { ("Germany", "Mercedes-Benz")
            } else if (b[0] == 87 && b[1] == 68 && b[2] == 67) || (b[0] == 87 && b[1] == 68 && b[2] == 68) || (b[0] == 87 && b[1] == 77 && b[2] == 88) { ("Germany", "Daimler AG")
            } else { ("Unknown", "Unknown") };
        (String::from_str(l), String::from_str(m))
    }

    /// Decodes a VIN: it must be 17 bytes long, else there is none. The maker comes from
    /// its first three bytes and the model year from its tenth character.
    pub fn new(str: String) -> (r: Option<Self>)
        requires
            vin_readable(str@),
        ensures
            encode_utf8(str@).len() != 17 ==> r is None,
            encode_utf8(str@).len() == 17 ==> (r matches Some(v) && {
                &&& v.raw@ == str@
                &&& v.year == vin_year(str@[9])
                &&& v.manufacture_location@ == wmi_info(encode_utf8(str@).subrange(0, 3)).0
                &&& v.manufacture_name@ == wmi_info(encode_utf8(str@).subrange(0, 3)).1
            }),
    {
        let bytes = str.as_str().as_bytes();
        if bytes.len() != 17 {
            return None;
        }
        let (head, _tail) = bytes.split_at(3);
        let info = Vin::get_wmi(head);
        let y = Vin::get_year(str.as_str().get_char(9));
        Some(Self { raw: str, year: y, manufacture_location: info.0, manufacture_name: info.1 })
    }
}

/// A text of 17 bytes can be decoded: it has at least ten characters, and its first two
/// and first three bytes end on character boundaries.
pub open spec fn vin_readable(s: Seq<char>) -> bool {
    encode_utf8(s).len() == 17 ==> {
        &&& s.len() >= 10
        &&& is_char_boundary(encode_utf8(s), 2)
        &&& is_char_boundary(encode_utf8(s), 3)
    }
}

} // verus!
