//! Decimal rendering of unsigned integers.

use vstd::prelude::*;

verus! {

/// The character of the decimal digit `d` (`0 <= d < 10`).
pub open spec fn digit_char(d: int) -> char {
    if d == 0 {
        '0'
    } else if d == 1 {
        '1'
    } else if d == 2 {
        '2'
    } else if d == 3 {
        '3'
    } else if d == 4 {
        '4'
    } else if d == 5 {
        '5'
    } else if d == 6 {
        '6'
    } else if d == 7 {
        '7'
    } else if d == 8 {
        '8'
    } else {
        '9'
    }
}

/// The decimal representation of `n`, without sign or leading zeros.
pub open spec fn decimal(n: nat) -> Seq<char>
    decreases n,
{
    if n < 10 {
        seq![digit_char(n as int)]
    } else {
        decimal(n / 10).push(digit_char((n % 10) as int))
    }
}

/// The number that the decimal digits `s` denote (`0` for no digits).
pub open spec fn decimal_value(s: Seq<char>) -> int
    decreases s.len(),
{
    if s.len() == 0 {
        0
    } else {
        decimal_value(s.drop_last()) * 10 + (s.last() as int - '0' as int)
    }
}

/// Whether every character of `s` is one of `0`..`9`.
pub open spec fn all_digits(s: Seq<char>) -> bool {
    forall|i: int| 0 <= i < s.len() ==> '0' as int <= #[trigger] s[i] as int <= '9' as int
}

/// The digit characters are `0`..`9` in order: digit `d` is the character
/// `d` places after `0`.
pub proof fn law_digit_char(d: int)
    requires
        0 <= d < 10,
    ensures
        digit_char(d) as int == '0' as int + d,
{
}

/// `decimal(n)` is a decimal representation of `n`: it is made of digits,
/// reading it back gives `n`, and it has no leading zero.
pub proof fn law_decimal_reads_back(n: nat)
    ensures
        all_digits(decimal(n)),
        decimal_value(decimal(n)) == n,
        decimal(n).len() >= 1,
        decimal(n).len() > 1 ==> decimal(n)[0] != '0',
    decreases n,
{
    if n < 10 {
        law_digit_char(n as int);
        let s = decimal(n);
        assert(s.drop_last() =~= Seq::<char>::empty());
        assert(decimal_value(s.drop_last()) == 0);
        assert(s.last() == digit_char(n as int));
        assert(decimal_value(s) == n);
    } else {
        law_decimal_reads_back(n / 10);
        law_digit_char((n % 10) as int);
        let p = decimal(n / 10);
        let s = decimal(n);
        assert(s.drop_last() =~= p);
        assert(s.last() == digit_char((n % 10) as int));
        assert(decimal_value(s) == decimal_value(p) * 10 + (n % 10));
        assert(n == (n / 10) * 10 + n % 10);
        assert(s[0] == p[0]);
        assert forall|i: int| 0 <= i < s.len() implies '0' as int <= #[trigger] s[i] as int
            <= '9' as int by {
            if i < p.len() {
                assert(s[i] == p[i]);
            }
        }
        if n / 10 < 10 {
            law_digit_char((n / 10) as int);
            assert(p[0] == digit_char((n / 10) as int));
            assert(p[0] as int != '0' as int);
        } else {
            law_decimal_reads_back(n / 10 / 10);
            assert(p.len() > 1);
        }
    }
}

fn digit_str(d: u32) -> (s: &'static str)
    requires
        d < 10,
    ensures
        s@ == seq![digit_char(d as int)],
{
    let s = if d == 0 {
        proof {
            reveal_strlit("0");
        }
        "0"
    } else if d == 1 {
        proof {
            reveal_strlit("1");
        }
        "1"
    } else if d == 2 {
        proof {
            reveal_strlit("2");
        }
        "2"
    } else if d == 3 {
        proof {
            reveal_strlit("3");
        }
        "3"
    } else if d == 4 {
        proof {
            reveal_strlit("4");
        }
        "4"
    } else if d == 5 {
        proof {
            reveal_strlit("5");
        }
        "5"
    } else if d == 6 {
        proof {
            reveal_strlit("6");
        }
        "6"
    } else if d == 7 {
        proof {
            reveal_strlit("7");
        }
        "7"
    } else if d == 8 {
        proof {
            reveal_strlit("8");
        }
        "8"
    } else {
        proof {
            reveal_strlit("9");
        }
        "9"
    };
    assert(s@ =~= seq![digit_char(d as int)]);
    s
}

/// Appends the decimal representation of `n` to `s`.
pub fn push_decimal(s: &mut String, n: u32)
    ensures
        final(s)@ == old(s)@ + decimal(n as nat),
    decreases n,
{
    if n >= 10 {
        push_decimal(s, n / 10);
    }
    let d = digit_str(n % 10);
    s.append(d);
    assert(s@ =~= old(s)@ + decimal(n as nat));
}

/// The decimal representation of `n`, as `n.to_string()` gives it.
pub fn decimal_string(n: u32) -> (s: String)
    ensures
        s@ == decimal(n as nat),
{
    let mut s = String::new();
    push_decimal(&mut s, n);
    assert(s@ =~= decimal(n as nat));
    s
}

} // verus!
