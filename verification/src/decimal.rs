//! Decimal numerals for status codes.
//!
//! The fault rendering shows the status code as its plain decimal numeral,
//! so the numeral is specified here as a sequence of characters, produced
//! by a verified renderer, and proved injective: distinct codes always
//! render as distinct numerals.

use vstd::prelude::*;
use vstd::string::StringExecFns;

verus! {

/// The character for a single decimal digit.
pub open spec fn digit_char(d: nat) -> char {
    if d == 0 {
        '0'
    } else if d == 1 {
        '1'
    } else if d == 2 {
        '2'
    } else if d == 3 {
        '3'
    } else if d == 4 {
        '4'
    } else if d == 5 {
        '5'
    } else if d == 6 {
        '6'
    } else if d == 7 {
        '7'
    } else if d == 8 {
        '8'
    } else {
        '9'
    }
}

/// The decimal numeral of `n`: most significant digit first, no leading
/// zeros (zero itself renders as "0").
pub open spec fn decimal_of(n: nat) -> Seq<char>
    decreases n,
{
    if n < 10 {
        seq![digit_char(n)]
    } else {
        decimal_of(n / 10).push(digit_char(n % 10))
    }
}

/// A decimal numeral is never empty.
pub proof fn lemma_decimal_nonempty(n: nat)
    ensures
        decimal_of(n).len() >= 1,
    decreases n,
{
    if n >= 10 {
        lemma_decimal_nonempty(n / 10);
    }
}

/// Distinct digits have distinct characters.
proof fn lemma_digit_char_injective(a: nat, b: nat)
    requires
        a < 10,
        b < 10,
        a != b,
    ensures
        digit_char(a) != digit_char(b),
{
}

/// Distinct numbers have distinct decimal numerals.
pub proof fn lemma_decimal_injective(a: nat, b: nat)
    requires
        a != b,
    ensures
        decimal_of(a) != decimal_of(b),
    decreases a + b,
{
    if a < 10 && b < 10 {
        lemma_digit_char_injective(a, b);
        assert(decimal_of(a)[0] != decimal_of(b)[0]);
    } else if a < 10 {
        lemma_decimal_nonempty(b / 10);
        assert(decimal_of(a).len() == 1);
        assert(decimal_of(b).len() >= 2);
    } else if b < 10 {
        lemma_decimal_nonempty(a / 10);
        assert(decimal_of(a).len() >= 2);
        assert(decimal_of(b).len() == 1);
    } else if a % 10 != b % 10 {
        lemma_digit_char_injective(a % 10, b % 10);
        assert(decimal_of(a).last() != decimal_of(b).last());
    } else {
        assert(a / 10 != b / 10) by (nonlinear_arith)
            requires
                a != b,
                a % 10 == b % 10,
                a >= 10,
                b >= 10,
        ;
        lemma_decimal_injective(a / 10, b / 10);
        if decimal_of(a) == decimal_of(b) {
            let sa = decimal_of(a / 10);
            let sb = decimal_of(b / 10);
            assert(sa.len() == sb.len());
            assert(forall|i: int| 0 <= i < sa.len() ==> sa[i] == sb[i]) by {
                assert(forall|i: int| 0 <= i < sa.len() ==> sa[i] == decimal_of(a).index(
                    i,
                ) && sb[i] == decimal_of(b).index(i));
            }
            assert(sa =~= sb);
        }
    }
}

/// A single decimal digit as a string slice.
fn digit_str(d: u16) -> (r: &'static str)
    requires
        d < 10,
    ensures
        r@ == seq![digit_char(d as nat)],
{
    if d == 0 {
        proof {
            reveal_strlit("0");
        }
        let r = "0";
        assert(r@ =~= seq!['0']);
        r
    } else if d == 1 {
        proof {
            reveal_strlit("1");
        }
        let r = "1";
        assert(r@ =~= seq!['1']);
        r
    } else if d == 2 {
        proof {
            reveal_strlit("2");
        }
        let r = "2";
        assert(r@ =~= seq!['2']);
        r
    } else if d == 3 {
        proof {
            reveal_strlit("3");
        }
        let r = "3";
        assert(r@ =~= seq!['3']);
        r
    } else if d == 4 {
        proof {
            reveal_strlit("4");
        }
        let r = "4";
        assert(r@ =~= seq!['4']);
        r
    } else if d == 5 {
        proof {
            reveal_strlit("5");
        }
        let r = "5";
        assert(r@ =~= seq!['5']);
        r
    } else if d == 6 {
        proof {
            reveal_strlit("6");
        }
        let r = "6";
        assert(r@ =~= seq!['6']);
        r
    } else if d == 7 {
        proof {
            reveal_strlit("7");
        }
        let r = "7";
        assert(r@ =~= seq!['7']);
        r
    } else if d == 8 {
        proof {
            reveal_strlit("8");
        }
        let r = "8";
        assert(r@ =~= seq!['8']);
        r
    } else {
        proof {
            reveal_strlit("9");
        }
        let r = "9";
        assert(r@ =~= seq!['9']);
        r
    }
}

/// Render `n` as its decimal numeral.
pub fn u16_decimal(n: u16) -> (r: String)
    ensures
        r@ == decimal_of(n as nat),
    decreases n,
{
    if n < 10 {
        let r = digit_str(n).to_owned();
        assert(r@ =~= decimal_of(n as nat));
        r
    } else {
        let mut s = u16_decimal(n / 10);
        s.append(digit_str(n % 10));
        assert(s@ =~= decimal_of(n as nat));
        s
    }
}

} // verus!
