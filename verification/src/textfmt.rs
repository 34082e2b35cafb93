//! Formatting of a reading as the single line shown on the display:
//! `"<temp>°C, <humidity>% RH"`.
//!
//! Both quantities are held in tenths, and the text shows the fractional
//! digit only when it is nonzero, exactly as a float formatter prints
//! one-decimal values (`235` tenths prints as `23.5`, `410` tenths of a
//! percent prints as `41`).

use vstd::prelude::*;
use vstd::string::StringExecFns;
use crate::reading::Reading;

verus! {

/// The character for one decimal digit.
pub open spec fn digit_char(d: int) -> char {
    if d == 0 {
        '0'
    } else if d == 1 {
        '1'
    } else if d == 2 {
        '2'
    } else if d == 3 {
        '3'
    } else if d == 4 {
        '4'
    } else if d == 5 {
        '5'
    } else if d == 6 {
        '6'
    } else if d == 7 {
        '7'
    } else if d == 8 {
        '8'
    } else {
        '9'
    }
}

/// Decimal numeral of `n`, most significant digit first, with no leading
/// zeros (zero itself is the single character `0`).
pub open spec fn dec_rep(n: nat) -> Seq<char>
    decreases n,
{
    if n < 10 {
        seq![digit_char(n as int)]
    } else {
        dec_rep((n / 10) as nat).push(digit_char((n % 10) as int))
    }
}

/// Text of a value held in tenths: optional minus sign, the whole part in
/// decimal, and `.d` only when the tenths digit `d` is nonzero.
pub open spec fn tenths_text(v: int) -> Seq<char> {
    let m = if v < 0 {
        -v
    } else {
        v
    };
    let sign: Seq<char> = if v < 0 {
        seq!['-']
    } else {
        Seq::<char>::empty()
    };
    let frac: Seq<char> = if m % 10 == 0 {
        Seq::<char>::empty()
    } else {
        seq!['.', digit_char(m % 10)]
    };
    sign + dec_rep((m / 10) as nat) + frac
}

/// The whole message line for one reading.
pub open spec fn reading_text(temp_tenths: int, humidity_tenths: int) -> Seq<char> {
    tenths_text(temp_tenths) + ("°C, ")@ + tenths_text(humidity_tenths) + ("% RH")@
}

/// The one-character string for a digit.
fn digit_str(d: u64) -> (s: &'static str)
    requires
        d < 10,
    ensures
        s@ == seq![digit_char(d as int)],
{
    if d == 0 {
        proof {
            reveal_strlit("0");
            assert(("0")@ =~= seq![digit_char(0)]);
        }
        "0"
    } else if d == 1 {
        proof {
            reveal_strlit("1");
            assert(("1")@ =~= seq![digit_char(1)]);
        }
        "1"
    } else if d == 2 {
        proof {
            reveal_strlit("2");
            assert(("2")@ =~= seq![digit_char(2)]);
        }
        "2"
    } else if d == 3 {
        proof {
            reveal_strlit("3");
            assert(("3")@ =~= seq![digit_char(3)]);
        }
        "3"
    } else if d == 4 {
        proof {
            reveal_strlit("4");
            assert(("4")@ =~= seq![digit_char(4)]);
        }
        "4"
    } else if d == 5 {
        proof {
            reveal_strlit("5");
            assert(("5")@ =~= seq![digit_char(5)]);
        }
        "5"
    } else if d == 6 {
        proof {
            reveal_strlit("6");
            assert(("6")@ =~= seq![digit_char(6)]);
        }
        "6"
    } else if d == 7 {
        proof {
            reveal_strlit("7");
            assert(("7")@ =~= seq![digit_char(7)]);
        }
        "7"
    } else if d == 8 {
        proof {
            reveal_strlit("8");
            assert(("8")@ =~= seq![digit_char(8)]);
        }
        "8"
    } else {
        proof {
            reveal_strlit("9");
            assert(("9")@ =~= seq![digit_char(9)]);
        }
        "9"
    }
}

/// Decimal formatting of an unsigned value.
pub fn dec_to_string(n: u64) -> (s: String)
    ensures
        s@ == dec_rep(n as nat),
    decreases n,
{
    if n < 10 {
        digit_str(n).to_owned()
    } else {
        let mut s = dec_to_string(n / 10);
        s.append(digit_str(n % 10));
        proof {
            assert(s@ =~= dec_rep((n / 10) as nat).push(digit_char((n % 10) as int)));
        }
        s
    }
}

/// Formatting of a signed value held in tenths.
pub fn tenths_to_string(v: i64) -> (s: String)
    ensures
        s@ == tenths_text(v as int),
{
    let m: u64 = if v < 0 {
        // -(v + 1) stays within i64 even for the smallest value.
        ((-(v + 1)) as u64) + 1
    } else {
        v as u64
    };
    proof {
        assert(m as int == if v < 0 { -(v as int) } else { v as int });
    }
    let whole = dec_to_string(m / 10);
    let frac: u64 = m % 10;
    let mut s = String::new();
    if v < 0 {
        s.append("-");
    }
    s.append(whole.as_str());
    if frac != 0 {
        s.append(".");
        s.append(digit_str(frac));
    }
    proof {
        reveal_strlit("-");
        reveal_strlit(".");
        assert(s@ =~= tenths_text(v as int));
    }
    s
}

/// The message line for one reading, e.g. `"23.5°C, 41% RH"` for 23.5 degrees
/// and 41.0% relative humidity.
pub fn format_reading(r: &Reading) -> (s: String)
    requires
        r.wf(),
    ensures
        s@ == reading_text(r.temp_tenths as int, r.humidity_tenths as int),
{
    let mut s = tenths_to_string(r.temp_tenths as i64);
    s.append("°C, ");
    let h = tenths_to_string(r.humidity_tenths as i64);
    s.append(h.as_str());
    s.append("% RH");
    proof {
        assert(s@ =~= reading_text(r.temp_tenths as int, r.humidity_tenths as int));
    }
    s
}

} // verus!
