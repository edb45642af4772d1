//! The numeric text line of the display: the raw probe value rendered as
//! "Raw Val NNNN", zero-padded to four digits.

use vstd::prelude::*;
use vstd::string::StringExecFns;

verus! {

/// The character for one decimal digit.
pub open spec fn digit_char(d: int) -> char {
    if d == 0 {
        '0'
    } else if d == 1 {
        '1'
    } else if d == 2 {
        '2'
    } else if d == 3 {
        '3'
    } else if d == 4 {
        '4'
    } else if d == 5 {
        '5'
    } else if d == 6 {
        '6'
    } else if d == 7 {
        '7'
    } else if d == 8 {
        '8'
    } else {
        '9'
    }
}

/// The text shown for a raw value: the fixed prefix followed by the value's
/// four decimal digits, most significant first, padded with zeroes.
pub open spec fn label_spec(raw: int) -> Seq<char> {
    "Raw Val "@ + seq![
        digit_char(raw / 1000 % 10),
        digit_char(raw / 100 % 10),
        digit_char(raw / 10 % 10),
        digit_char(raw % 10),
    ]
}

/// The one-character text of a decimal digit.
fn digit_str(d: u16) -> (s: &'static str)
    requires
        d < 10,
    ensures
        s@ =~= seq![digit_char(d as int)],
{
    if d == 0 {
        proof {
            reveal_strlit("0");
        }
        "0"
    } else if d == 1 {
        proof {
            reveal_strlit("1");
        }
        "1"
    } else if d == 2 {
        proof {
            reveal_strlit("2");
        }
        "2"
    } else if d == 3 {
        proof {
            reveal_strlit("3");
        }
        "3"
    } else if d == 4 {
        proof {
            reveal_strlit("4");
        }
        "4"
    } else if d == 5 {
        proof {
            reveal_strlit("5");
        }
        "5"
    } else if d == 6 {
        proof {
            reveal_strlit("6");
        }
        "6"
    } else if d == 7 {
        proof {
            reveal_strlit("7");
        }
        "7"
    } else if d == 8 {
        proof {
            reveal_strlit("8");
        }
        "8"
    } else {
        proof {
            reveal_strlit("9");
        }
        "9"
    }
}

/// Build the display text for a raw value below ten thousand (every probe
/// value is: full scale is 4096).
pub fn value_label(raw: u16) -> (s: String)
    requires
        raw < 10000,
    ensures
        s@ == label_spec(raw as int),
{
    let mut s = String::from_str("Raw Val ");
    s.append(digit_str(raw / 1000 % 10));
    s.append(digit_str(raw / 100 % 10));
    s.append(digit_str(raw / 10 % 10));
    s.append(digit_str(raw % 10));
    proof {
        assert(s@ =~= label_spec(raw as int));
    }
    s
}

} // verus!
