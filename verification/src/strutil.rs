//! Rendering of unsigned integers as decimal text, used wherever the daemon
//! writes a number into a path, a URL or a configuration file.

use vstd::prelude::*;
use vstd::string::StringExecFns;

verus! {

/// The decimal digit character for `d`, which must lie in `0 .. 10`.
pub open spec fn digit_char(d: int) -> char {
    if d == 0 {
        '0'
    } else if d == 1 {
        '1'
    } else if d == 2 {
        '2'
    } else if d == 3 {
        '3'
    } else if d == 4 {
        '4'
    } else if d == 5 {
        '5'
    } else if d == 6 {
        '6'
    } else if d == 7 {
        '7'
    } else if d == 8 {
        '8'
    } else {
        '9'
    }
}

/// The decimal rendering of `n`: most significant digit first, no sign,
/// no leading zeros, and `0` rendered as a single `'0'`.
pub open spec fn dec_str(n: nat) -> Seq<char>
    decreases n,
{
    if n < 10 {
        seq![digit_char(n as int)]
    } else {
        dec_str(n / 10) + seq![digit_char((n % 10) as int)]
    }
}

/// The characters of the digits `ds`, read from the last digit to the first:
/// the rendering of a number whose digits were collected least significant
/// first.
pub open spec fn rev_digit_chars(ds: Seq<u64>) -> Seq<char> {
    Seq::new(ds.len(), |i: int| digit_char(ds[ds.len() - 1 - i] as int))
}

/// The one-character string for a single decimal digit.
fn digit_str(d: u64) -> (s: &'static str)
    requires
        d < 10,
    ensures
        s@ == seq![digit_char(d as int)],
{
    if d == 0 {
        proof {
            reveal_strlit("0");
            assert("0"@ =~= seq![digit_char(0int)]);
        }
        "0"
    } else if d == 1 {
        proof {
            reveal_strlit("1");
            assert("1"@ =~= seq![digit_char(1int)]);
        }
        "1"
    } else if d == 2 {
        proof {
            reveal_strlit("2");
            assert("2"@ =~= seq![digit_char(2int)]);
        }
        "2"
    } else if d == 3 {
        proof {
            reveal_strlit("3");
            assert("3"@ =~= seq![digit_char(3int)]);
        }
        "3"
    } else if d == 4 {
        proof {
            reveal_strlit("4");
            assert("4"@ =~= seq![digit_char(4int)]);
        }
        "4"
    } else if d == 5 {
        proof {
            reveal_strlit("5");
            assert("5"@ =~= seq![digit_char(5int)]);
        }
        "5"
    } else if d == 6 {
        proof {
            reveal_strlit("6");
            assert("6"@ =~= seq![digit_char(6int)]);
        }
        "6"
    } else if d == 7 {
        proof {
            reveal_strlit("7");
            assert("7"@ =~= seq![digit_char(7int)]);
        }
        "7"
    } else if d == 8 {
        proof {
            reveal_strlit("8");
            assert("8"@ =~= seq![digit_char(8int)]);
        }
        "8"
    } else {
        proof {
            reveal_strlit("9");
            assert("9"@ =~= seq![digit_char(9int)]);
        }
        "9"
    }
}

/// Renders `n` in decimal, exactly as `dec_str` describes.
pub fn u64_to_dec(n: u64) -> (s: String)
    ensures
        s@ == dec_str(n as nat),
{
    let mut digits: Vec<u64> = Vec::new();
    let mut m: u64 = n;
    while m >= 10
        invariant
            forall|i: int| 0 <= i < digits@.len() ==> digits@[i] < 10,
            dec_str(n as nat) == dec_str(m as nat) + rev_digit_chars(digits@),
        decreases m,
    {
        let d: u64 = m % 10;
        proof {
            assert(rev_digit_chars(digits@.push(d)) =~= seq![digit_char(d as int)]
                + rev_digit_chars(digits@));
            assert(dec_str(m as nat) == dec_str((m / 10) as nat) + seq![
                digit_char((m % 10) as int),
            ]);
            assert(dec_str((m / 10) as nat) + (seq![digit_char(d as int)]
                + rev_digit_chars(digits@)) =~= (dec_str((m / 10) as nat) + seq![
                digit_char(d as int),
            ]) + rev_digit_chars(digits@));
        }
        digits.push(d);
        m = m / 10;
    }
    proof {
        assert(rev_digit_chars(digits@.push(m)) =~= seq![digit_char(m as int)]
            + rev_digit_chars(digits@));
    }
    digits.push(m);
    let ghost all: Seq<char> = rev_digit_chars(digits@);
    proof {
        assert(dec_str(n as nat) =~= all);
    }
    let mut s = String::new();
    let mut i: usize = digits.len();
    while i > 0
        invariant
            i <= digits@.len(),
            forall|k: int| 0 <= k < digits@.len() ==> digits@[k] < 10,
            all == rev_digit_chars(digits@),
            s@ == all.take(digits@.len() - i),
        decreases i,
    {
        i = i - 1;
        let piece = digit_str(digits[i]);
        s.append(piece);
        proof {
            assert(s@ =~= all.take(digits@.len() - i));
        }
    }
    proof {
        assert(all.take(digits@.len() as int) =~= all);
    }
    s
}

/// Renders a port number or capacity in decimal.
pub fn u16_to_dec(n: u16) -> (s: String)
    ensures
        s@ == dec_str(n as nat),
{
    u64_to_dec(n as u64)
}

} // verus!
