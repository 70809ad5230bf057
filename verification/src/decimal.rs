//! Decimal rendering of unsigned values, with a proof that the rendered
//! digits really denote the number they came from.

use vstd::prelude::*;
use vstd::string::StringExecFns;

verus! {

/// The character for one decimal digit `d < 10`.
pub open spec fn digit_char(d: nat) -> char {
    if d == 0 {
        '0'
    } else if d == 1 {
        '1'
    } else if d == 2 {
        '2'
    } else if d == 3 {
        '3'
    } else if d == 4 {
        '4'
    } else if d == 5 {
        '5'
    } else if d == 6 {
        '6'
    } else if d == 7 {
        '7'
    } else if d == 8 {
        '8'
    } else {
        '9'
    }
}

/// The decimal rendering of `n`: most significant digit first, no sign, no
/// leading zeros (except for `n == 0`, rendered as the single digit `0`).
pub open spec fn dec_seq(n: nat) -> Seq<char>
    decreases n,
{
    if n < 10 {
        seq![digit_char(n)]
    } else {
        dec_seq(n / 10).push(digit_char(n % 10))
    }
}

/// The numeric value of one digit character, and 10 for any character that
/// is not a decimal digit.
pub open spec fn char_val(c: char) -> nat {
    if c == '0' {
        0
    } else if c == '1' {
        1
    } else if c == '2' {
        2
    } else if c == '3' {
        3
    } else if c == '4' {
        4
    } else if c == '5' {
        5
    } else if c == '6' {
        6
    } else if c == '7' {
        7
    } else if c == '8' {
        8
    } else if c == '9' {
        9
    } else {
        10
    }
}

/// The number that a string of decimal digits denotes, most significant
/// digit first.
pub open spec fn dec_val(s: Seq<char>) -> nat
    decreases s.len(),
{
    if s.len() == 0 {
        0
    } else {
        dec_val(s.drop_last()) * 10 + char_val(s.last())
    }
}

/// The rendering `dec_seq(n)` is honest decimal notation: it is nonempty,
/// holds only digit characters, starts with `0` only for `n == 0`, and
/// denotes exactly `n`.
pub proof fn lemma_dec_seq_denotes(n: nat)
    ensures
        dec_seq(n).len() >= 1,
        forall|i: int| 0 <= i < dec_seq(n).len() ==> char_val(#[trigger] dec_seq(n)[i]) < 10,
        n == 0 || dec_seq(n)[0] != '0',
        dec_val(dec_seq(n)) == n,
    decreases n,
{
    if n < 10 {
        let s = seq![digit_char(n)];
        assert(s.len() == 1);
        assert(s.last() == digit_char(n));
        assert(s.drop_last() =~= Seq::<char>::empty());
        assert(dec_val(s.drop_last()) == 0);
        assert(dec_val(s) == char_val(digit_char(n)));
    } else {
        lemma_dec_seq_denotes(n / 10);
        let s = dec_seq(n);
        assert(s.drop_last() =~= dec_seq(n / 10));
        assert(dec_val(s) == dec_val(dec_seq(n / 10)) * 10 + char_val(digit_char(n % 10)));
        assert(dec_val(s) == (n / 10) * 10 + n % 10);
        assert(forall|i: int|
            0 <= i < s.len() ==> char_val(#[trigger] s[i]) < 10) by {
            assert(forall|i: int| 0 <= i < s.len() - 1 ==> s[i] == dec_seq(n / 10)[i]);
        }
    }
}

/// The single-character string for one decimal digit.
fn digit_string(d: u32) -> (s: String)
    requires
        d < 10,
    ensures
        s@ == seq![digit_char(d as nat)],
{
    if d == 0 {
        proof {
            reveal_strlit("0");
            assert("0"@ =~= seq![digit_char(0)]);
        }
        String::from_str("0")
    } else if d == 1 {
        proof {
            reveal_strlit("1");
            assert("1"@ =~= seq![digit_char(1)]);
        }
        String::from_str("1")
    } else if d == 2 {
        proof {
            reveal_strlit("2");
            assert("2"@ =~= seq![digit_char(2)]);
        }
        String::from_str("2")
    } else if d == 3 {
        proof {
            reveal_strlit("3");
            assert("3"@ =~= seq![digit_char(3)]);
        }
        String::from_str("3")
    } else if d == 4 {
        proof {
            reveal_strlit("4");
            assert("4"@ =~= seq![digit_char(4)]);
        }
        String::from_str("4")
    } else if d == 5 {
        proof {
            reveal_strlit("5");
            assert("5"@ =~= seq![digit_char(5)]);
        }
        String::from_str("5")
    } else if d == 6 {
        proof {
            reveal_strlit("6");
            assert("6"@ =~= seq![digit_char(6)]);
        }
        String::from_str("6")
    } else if d == 7 {
        proof {
            reveal_strlit("7");
            assert("7"@ =~= seq![digit_char(7)]);
        }
        String::from_str("7")
    } else if d == 8 {
        proof {
            reveal_strlit("8");
            assert("8"@ =~= seq![digit_char(8)]);
        }
        String::from_str("8")
    } else {
        proof {
            reveal_strlit("9");
            assert("9"@ =~= seq![digit_char(9)]);
        }
        String::from_str("9")
    }
}

/// Render `n` in decimal.
pub fn u32_dec(n: u32) -> (s: String)
    ensures
        s@ == dec_seq(n as nat),
    decreases n,
{
    if n < 10 {
        digit_string(n)
    } else {
        let mut s = u32_dec(n / 10);
        let d = digit_string(n % 10);
        s.append(d.as_str());
        proof {
            assert(s@ =~= dec_seq(n as nat));
        }
        s
    }
}

} // verus!
