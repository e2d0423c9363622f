//! `MM:SS` rendering of a whole number of seconds.
//!
//! Minutes and seconds are zero-padded to two digits; minutes are unbounded
//! above, so durations of 100 minutes and more simply grow a third digit.

use vstd::prelude::*;
use vstd::string::StringExecFns;

verus! {

/// The character for one decimal digit.
pub open spec fn dec_digit(d: nat) -> char
    recommends
        d < 10,
{
    if d == 0 {
        '0'
    } else if d == 1 {
        '1'
    } else if d == 2 {
        '2'
    } else if d == 3 {
        '3'
    } else if d == 4 {
        '4'
    } else if d == 5 {
        '5'
    } else if d == 6 {
        '6'
    } else if d == 7 {
        '7'
    } else if d == 8 {
        '8'
    } else {
        '9'
    }
}

/// Decimal representation of `n`: most significant digit first, no leading
/// zero (a single `'0'` for zero).
pub open spec fn spec_decimal(n: nat) -> Seq<char>
    decreases n,
{
    if n < 10 {
        seq![dec_digit(n)]
    } else {
        spec_decimal(n / 10).push(dec_digit(n % 10))
    }
}

/// Decimal representation zero-padded to at least two digits.
pub open spec fn spec_pad2(n: nat) -> Seq<char> {
    if n < 10 {
        seq!['0', dec_digit(n)]
    } else {
        spec_decimal(n)
    }
}

/// The `MM:SS` label for a whole number of seconds: zero-padded minutes,
/// a colon, then zero-padded seconds (`00..=59`).
pub open spec fn spec_format_duration(total_seconds: nat) -> Seq<char> {
    spec_pad2(total_seconds / 60) + seq![':'] + spec_pad2(total_seconds % 60)
}

proof fn lemma_decimal_len(n: nat)
    ensures
        1 <= spec_decimal(n).len(),
        n < 10 ==> spec_decimal(n).len() == 1,
        10 <= n < 100 ==> spec_decimal(n).len() == 2,
        n >= 10 ==> spec_decimal(n).len() >= 2,
    decreases n,
{
    if n >= 10 {
        lemma_decimal_len(n / 10);
    }
}

proof fn lemma_decimal_leading_nonzero(n: nat)
    requires
        n >= 1,
    ensures
        spec_decimal(n)[0] != '0',
    decreases n,
{
    if n >= 10 {
        lemma_decimal_leading_nonzero(n / 10);
        lemma_decimal_len(n / 10);
        assert(spec_decimal(n)[0] == spec_decimal(n / 10)[0]);
    }
}

proof fn lemma_decimal_injective(a: nat, b: nat)
    requires
        spec_decimal(a) == spec_decimal(b),
    ensures
        a == b,
    decreases a,
{
    lemma_decimal_len(a);
    lemma_decimal_len(b);
    if a < 10 && b < 10 {
        assert(spec_decimal(a)[0] == dec_digit(a));
        assert(spec_decimal(b)[0] == dec_digit(b));
    } else if a >= 10 && b >= 10 {
        let sa = spec_decimal(a / 10);
        let sb = spec_decimal(b / 10);
        let da = dec_digit(a % 10);
        let db = dec_digit(b % 10);
        assert(sa.push(da).len() == sb.push(db).len());
        assert forall|i: int| 0 <= i < sa.len() implies sa[i] == sb[i] by {
            assert(sa.push(da)[i] == sa[i]);
            assert(sb.push(db)[i] == sb[i]);
        }
        assert(sa =~= sb);
        lemma_decimal_injective(a / 10, b / 10);
        assert(sa.push(da)[sa.len() as int] == da);
        assert(sb.push(db)[sb.len() as int] == db);
        assert(a % 10 == b % 10);
        vstd::arithmetic::div_mod::lemma_fundamental_div_mod(a as int, 10);
        vstd::arithmetic::div_mod::lemma_fundamental_div_mod(b as int, 10);
    } else {
        // one representation has one digit, the other at least two
        assert(false);
    }
}

proof fn lemma_pad2_injective(a: nat, b: nat)
    requires
        spec_pad2(a) == spec_pad2(b),
    ensures
        a == b,
{
    if a < 10 && b < 10 {
        assert(spec_pad2(a)[1] == dec_digit(a));
        assert(spec_pad2(b)[1] == dec_digit(b));
    } else if a >= 10 && b >= 10 {
        lemma_decimal_injective(a, b);
    } else if a < 10 {
        lemma_decimal_leading_nonzero(b);
        assert(spec_pad2(a)[0] == '0');
        assert(false);
    } else {
        lemma_decimal_leading_nonzero(a);
        assert(spec_pad2(b)[0] == '0');
        assert(false);
    }
}

/// Law: the `MM:SS` label round-trips whole seconds — it loses no
/// information, so two different second counts never render to the same
/// label and a label determines the duration it was formatted from.
pub proof fn lemma_format_duration_injective(a: nat, b: nat)
    requires
        spec_format_duration(a) == spec_format_duration(b),
    ensures
        a == b,
{
    let pa = spec_pad2(a / 60);
    let qa = spec_pad2(a % 60);
    let pb = spec_pad2(b / 60);
    let qb = spec_pad2(b % 60);
    lemma_decimal_len(a % 60);
    lemma_decimal_len(b % 60);
    assert(qa.len() == 2);
    assert(qb.len() == 2);
    assert((pa + seq![':'] + qa).len() == pa.len() + 3);
    assert((pb + seq![':'] + qb).len() == pb.len() + 3);
    assert(pa.len() == pb.len());
    assert forall|i: int| 0 <= i < pa.len() implies pa[i] == pb[i] by {
        assert((pa + seq![':'] + qa)[i] == pa[i]);
        assert((pb + seq![':'] + qb)[i] == pb[i]);
    }
    assert(pa =~= pb);
    lemma_pad2_injective(a / 60, b / 60);
    assert forall|j: int| 0 <= j < 2 implies qa[j] == qb[j] by {
        assert((pa + seq![':'] + qa)[pa.len() + 1 + j] == qa[j]);
        assert((pb + seq![':'] + qb)[pb.len() + 1 + j] == qb[j]);
    }
    assert(qa =~= qb);
    lemma_pad2_injective(a % 60, b % 60);
    vstd::arithmetic::div_mod::lemma_fundamental_div_mod(a as int, 60);
    vstd::arithmetic::div_mod::lemma_fundamental_div_mod(b as int, 60);
}

/// The one-character string for one decimal digit.
fn digit_str(d: u64) -> (r: &'static str)
    requires
        d < 10,
    ensures
        r@ == seq![dec_digit(d as nat)],
{
    if d == 0 {
        proof {
            reveal_strlit("0");
            assert("0"@ =~= seq![dec_digit(0)]);
        }
        "0"
    } else if d == 1 {
        proof {
            reveal_strlit("1");
            assert("1"@ =~= seq![dec_digit(1)]);
        }
        "1"
    } else if d == 2 {
        proof {
            reveal_strlit("2");
            assert("2"@ =~= seq![dec_digit(2)]);
        }
        "2"
    } else if d == 3 {
        proof {
            reveal_strlit("3");
            assert("3"@ =~= seq![dec_digit(3)]);
        }
        "3"
    } else if d == 4 {
        proof {
            reveal_strlit("4");
            assert("4"@ =~= seq![dec_digit(4)]);
        }
        "4"
    } else if d == 5 {
        proof {
            reveal_strlit("5");
            assert("5"@ =~= seq![dec_digit(5)]);
        }
        "5"
    } else if d == 6 {
        proof {
            reveal_strlit("6");
            assert("6"@ =~= seq![dec_digit(6)]);
        }
        "6"
    } else if d == 7 {
        proof {
            reveal_strlit("7");
            assert("7"@ =~= seq![dec_digit(7)]);
        }
        "7"
    } else if d == 8 {
        proof {
            reveal_strlit("8");
            assert("8"@ =~= seq![dec_digit(8)]);
        }
        "8"
    } else {
        proof {
            reveal_strlit("9");
            assert("9"@ =~= seq![dec_digit(9)]);
        }
        "9"
    }
}

/// Append the decimal representation of `n` to `s`.
fn push_decimal(s: &mut String, n: u64)
    ensures
        final(s)@ == old(s)@ + spec_decimal(n as nat),
    decreases n,
{
    if n < 10 {
        s.append(digit_str(n));
        proof {
            assert(s@ =~= old(s)@ + spec_decimal(n as nat));
        }
    } else {
        push_decimal(s, n / 10);
        s.append(digit_str(n % 10));
        proof {
            assert(s@ =~= old(s)@ + spec_decimal(n as nat));
        }
    }
}

/// The `MM:SS` label for `total_seconds` seconds: `125` seconds render as
/// `"02:05"`, and minutes keep growing past `"99"` instead of wrapping.
pub fn format_duration(total_seconds: u64) -> (r: String)
    ensures
        r@ == spec_format_duration(total_seconds as nat),
{
    let minutes = total_seconds / 60;
    let seconds = total_seconds % 60;
    let mut s = String::new();
    if minutes < 10 {
        proof {
            reveal_strlit("0");
        }
        s.append("0");
    }
    push_decimal(&mut s, minutes);
    proof {
        assert(s@ =~= spec_pad2(minutes as nat));
    }
    proof {
        reveal_strlit(":");
    }
    s.append(":");
    if seconds < 10 {
        proof {
            reveal_strlit("0");
        }
        s.append("0");
    }
    push_decimal(&mut s, seconds);
    proof {
        assert(s@ =~= spec_format_duration(total_seconds as nat));
    }
    s
}

} // verus!
