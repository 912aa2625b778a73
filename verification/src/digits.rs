//! Decimal text for the length fields and integer payloads of RESP tokens.

use vstd::prelude::*;
use vstd::string::StringExecFns;

verus! {

/// The character for a single decimal digit.
pub open spec fn spec_digit(d: nat) -> char {
    if d == 0 {
        '0'
    } else if d == 1 {
        '1'
    } else if d == 2 {
        '2'
    } else if d == 3 {
        '3'
    } else if d == 4 {
        '4'
    } else if d == 5 {
        '5'
    } else if d == 6 {
        '6'
    } else if d == 7 {
        '7'
    } else if d == 8 {
        '8'
    } else {
        '9'
    }
}

/// The decimal text of a natural number: most significant digit first,
/// no leading zeros (a lone zero for 0).
pub open spec fn dec_nat(n: nat) -> Seq<char>
    decreases n,
{
    if n < 10 {
        seq![spec_digit(n)]
    } else {
        dec_nat(n / 10) + seq![spec_digit(n % 10)]
    }
}

/// The decimal text of an integer: a leading '-' for negative values.
pub open spec fn dec_int(i: int) -> Seq<char> {
    if i < 0 {
        seq!['-'] + dec_nat((-i) as nat)
    } else {
        dec_nat(i as nat)
    }
}

fn digit_str(d: u128) -> (r: &'static str)
    requires
        d < 10,
    ensures
        r@ == seq![spec_digit(d as nat)],
{
    let r: &'static str = if d == 0 {
        "0"
    } else if d == 1 {
        "1"
    } else if d == 2 {
        "2"
    } else if d == 3 {
        "3"
    } else if d == 4 {
        "4"
    } else if d == 5 {
        "5"
    } else if d == 6 {
        "6"
    } else if d == 7 {
        "7"
    } else if d == 8 {
        "8"
    } else {
        "9"
    };
    proof {
        reveal_strlit("0");
        reveal_strlit("1");
        reveal_strlit("2");
        reveal_strlit("3");
        reveal_strlit("4");
        reveal_strlit("5");
        reveal_strlit("6");
        reveal_strlit("7");
        reveal_strlit("8");
        reveal_strlit("9");
        assert(r@ =~= seq![spec_digit(d as nat)]);
    }
    r
}

/// The decimal text of `n` as an owned string.
pub fn dec_string(n: u128) -> (s: String)
    ensures
        s@ == dec_nat(n as nat),
    decreases n,
{
    if n < 10 {
        String::from_str(digit_str(n))
    } else {
        proof {
            assert(n / 10 < n) by (nonlinear_arith)
                requires
                    n >= 10,
            ;
        }
        let mut s = dec_string(n / 10);
        s.append(digit_str(n % 10));
        s
    }
}

/// The decimal text of `v` as an owned string, with a leading '-' when
/// `v` is negative.
pub fn dec_string_int(v: i128) -> (s: String)
    ensures
        s@ == dec_int(v as int),
{
    if v >= 0 {
        dec_string(v as u128)
    } else {
        let magnitude: u128 = ((-(v + 1)) as u128) + 1;
        proof {
            reveal_strlit("-");
            assert("-"@ =~= seq!['-']);
        }
        let mut s = String::from_str("-");
        let rest = dec_string(magnitude);
        s.append(rest.as_str());
        s
    }
}

/// Every character of a decimal text is an ASCII digit or the sign,
/// so its UTF-8 byte length equals its character count.
pub proof fn lemma_dec_nat_ascii(n: nat)
    ensures
        vstd::utf8::is_ascii_chars(dec_nat(n)),
    decreases n,
{
    if n < 10 {
    } else {
        lemma_dec_nat_ascii(n / 10);
        assert forall|i: int| 0 <= i < dec_nat(n).len() implies '\0' <= #[trigger] dec_nat(n)[i]
            <= '\u{7f}' by {
            if i < dec_nat(n / 10).len() {
                assert(dec_nat(n)[i] == dec_nat(n / 10)[i]);
            }
        }
    }
}

/// As `lemma_dec_nat_ascii`, for signed decimal text.
pub proof fn lemma_dec_int_ascii(i: int)
    ensures
        vstd::utf8::is_ascii_chars(dec_int(i)),
{
    if i < 0 {
        lemma_dec_nat_ascii((-i) as nat);
        assert forall|j: int| 0 <= j < dec_int(i).len() implies '\0' <= #[trigger] dec_int(i)[j]
            <= '\u{7f}' by {
            if j >= 1 {
                assert(dec_int(i)[j] == dec_nat((-i) as nat)[j - 1]);
            }
        }
    } else {
        lemma_dec_nat_ascii(i as nat);
    }
}

} // verus!
