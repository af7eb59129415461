//! A decimal thousands-grouping formatter for diagnostic output: digit
//! groups of three separated by commas, the leading group right-aligned in a
//! width of three.

use vstd::prelude::*;
use vstd::string::StringExecFns;

verus! {

/// The single character of a decimal digit.
pub open spec fn spec_digit(d: int) -> Seq<char> {
    if d == 0 {
        seq!['0']
    } else if d == 1 {
        seq!['1']
    } else if d == 2 {
        seq!['2']
    } else if d == 3 {
        seq!['3']
    } else if d == 4 {
        seq!['4']
    } else if d == 5 {
        seq!['5']
    } else if d == 6 {
        seq!['6']
    } else if d == 7 {
        seq!['7']
    } else if d == 8 {
        seq!['8']
    } else {
        seq!['9']
    }
}

/// A non-leading group: a comma and exactly three digits.
pub open spec fn spec_group3(m: int) -> Seq<char> {
    seq![','] + spec_digit(m / 100) + spec_digit((m / 10) % 10) + spec_digit(m % 10)
}

/// The leading group: up to three digits, right-aligned with spaces in a
/// width of three.
pub open spec fn spec_align3(m: int) -> Seq<char> {
    if m >= 100 {
        spec_digit(m / 100) + spec_digit((m / 10) % 10) + spec_digit(m % 10)
    } else if m >= 10 {
        seq![' '] + spec_digit(m / 10) + spec_digit(m % 10)
    } else {
        seq![' ', ' '] + spec_digit(m)
    }
}

/// The grouped rendering: while the value is above a full group, its
/// quotient by 1000 is rendered first, followed by a comma group of the
/// remainder; the leading group is right-aligned.
pub open spec fn spec_comma(n: int) -> Seq<char>
    decreases n,
{
    if n > 1000 {
        spec_comma(n / 1000) + spec_group3(n % 1000)
    } else {
        spec_align3(if n >= 0 {
            n % 1000
        } else {
            0
        })
    }
}

fn digit_str(d: usize) -> (r: &'static str)
    requires
        d < 10,
    ensures
        r@ == spec_digit(d as int),
{
    proof {
        reveal_strlit("0");
        reveal_strlit("1");
        reveal_strlit("2");
        reveal_strlit("3");
        reveal_strlit("4");
        reveal_strlit("5");
        reveal_strlit("6");
        reveal_strlit("7");
        reveal_strlit("8");
        reveal_strlit("9");
        assert("0"@ =~= seq!['0']);
        assert("1"@ =~= seq!['1']);
        assert("2"@ =~= seq!['2']);
        assert("3"@ =~= seq!['3']);
        assert("4"@ =~= seq!['4']);
        assert("5"@ =~= seq!['5']);
        assert("6"@ =~= seq!['6']);
        assert("7"@ =~= seq!['7']);
        assert("8"@ =~= seq!['8']);
        assert("9"@ =~= seq!['9']);
    }
    match d {
        0 => "0",
        1 => "1",
        2 => "2",
        3 => "3",
        4 => "4",
        5 => "5",
        6 => "6",
        7 => "7",
        8 => "8",
        _ => "9",
    }
}

fn comma_text(n: usize) -> (r: String)
    ensures
        r@ == spec_comma(n as int),
    decreases n,
{
    if n > 1000 {
        let mut s = comma_text(n / 1000);
        let m = n % 1000;
        s.append(",");
        s.append(digit_str(m / 100));
        s.append(digit_str((m / 10) % 10));
        s.append(digit_str(m % 10));
        proof {
            reveal_strlit(",");
            assert(","@ =~= seq![',']);
            assert(s@ =~= spec_comma(n as int));
        }
        s
    } else {
        let m = n % 1000;
        let mut s = String::new();
        if m >= 100 {
            s.append(digit_str(m / 100));
            s.append(digit_str((m / 10) % 10));
            s.append(digit_str(m % 10));
        } else if m >= 10 {
            s.append(" ");
            s.append(digit_str(m / 10));
            s.append(digit_str(m % 10));
        } else {
            s.append("  ");
            s.append(digit_str(m));
        }
        proof {
            reveal_strlit(" ");
            reveal_strlit("  ");
            assert(" "@ =~= seq![' ']);
            assert("  "@ =~= seq![' ', ' ']);
            assert(s@ =~= spec_comma(n as int));
        }
        s
    }
}

/// A number rendered with thousands grouping for progress output.
pub struct CommaFormat(pub usize);

impl CommaFormat {
    /// The grouped decimal text of the wrapped number.
    pub fn text(&self) -> (r: String)
        ensures
            r@ == spec_comma(self.0 as int),
    {
        comma_text(self.0)
    }
}

} // verus!
