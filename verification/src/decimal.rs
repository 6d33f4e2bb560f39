//! Decimal rendering of counts, as `usize`'s `Display` writes them.
use vstd::prelude::*;

verus! {

/// The character of a decimal digit `d` (0 to 9).
pub open spec fn digit_char(d: nat) -> char {
    (48 + d) as char
}

/// The value of a digit character, `'0'` to `'9'`.
pub open spec fn digit_value(c: char) -> int {
    (c as int) - 48
}

/// Whether every character of `s` is a decimal digit.
pub open spec fn all_digits(s: Seq<char>) -> bool {
    forall|i: int| 0 <= i < s.len() ==> '0' <= #[trigger] s[i] <= '9'
}

/// The decimal digits of `n`, most significant first, without leading zeros.
pub open spec fn decimal(n: nat) -> Seq<char>
    decreases n,
{
    if n < 10 {
        seq![digit_char(n)]
    } else {
        decimal(n / 10).push(digit_char(n % 10))
    }
}

/// The number that a string of decimal digits denotes.
pub open spec fn decimal_value(s: Seq<char>) -> int
    decreases s.len(),
{
    if s.len() == 0 {
        0
    } else {
        decimal_value(s.drop_last()) * 10 + digit_value(s.last())
    }
}

/// Rendering is faithful: the digits of `n` are digits, start with a non-zero
/// digit unless `n` is zero, and denote `n` again.
pub proof fn lemma_decimal_denotes(n: nat)
    ensures
        decimal(n).len() >= 1,
        decimal(n).len() > 1 <==> n >= 10,
        all_digits(decimal(n)),
        decimal(n).len() > 1 ==> decimal(n)[0] != '0',
        decimal_value(decimal(n)) == n,
    decreases n,
{
    if n < 10 {
        lemma_digit_char(n);
        assert(decimal(n).drop_last() =~= Seq::<char>::empty());
        assert(decimal_value(Seq::<char>::empty()) == 0);
    } else {
        lemma_decimal_denotes(n / 10);
        lemma_digit_char(n % 10);
        let s = decimal(n);
        assert(s.drop_last() =~= decimal(n / 10));
        assert(s[0] == decimal(n / 10)[0]);
        if n / 10 < 10 {
            lemma_digit_char(n / 10);
            assert(decimal(n / 10) =~= seq![digit_char(n / 10)]);
        }
        assert(s.last() == digit_char(n % 10));
        assert(decimal_value(s) == decimal_value(decimal(n / 10)) * 10 + digit_value(s.last()));
        assert((n / 10) * 10 + n % 10 == n) by (nonlinear_arith);
    }
}

/// A digit's character is a digit and has that digit's value.
pub proof fn lemma_digit_char(d: nat)
    requires
        d < 10,
    ensures
        '0' <= digit_char(d) <= '9',
        digit_value(digit_char(d)) == d,
        d != 0 ==> digit_char(d) != '0',
{
    assert((48 + d) as char as int == 48 + d);
}

fn digit_text(d: usize) -> (r: String)
    requires
        d < 10,
    ensures
        r@ == seq![digit_char(d as nat)],
{
    let lit = match d {
        0 => "0",
        1 => "1",
        2 => "2",
        3 => "3",
        4 => "4",
        5 => "5",
        6 => "6",
        7 => "7",
        8 => "8",
        _ => "9",
    };
    proof {
        reveal_strlit("0");
        reveal_strlit("1");
        reveal_strlit("2");
        reveal_strlit("3");
        reveal_strlit("4");
        reveal_strlit("5");
        reveal_strlit("6");
        reveal_strlit("7");
        reveal_strlit("8");
        reveal_strlit("9");
    }
    String::from_str(lit)
}

/// The decimal text of `n`, as `n.to_string()` gives it.
pub fn decimal_text(n: usize) -> (r: String)
    ensures
        r@ == decimal(n as nat),
    decreases n,
{
    if n < 10 {
        digit_text(n)
    } else {
        let mut s = decimal_text(n / 10);
        let last = digit_text(n % 10);
        s.append(last.as_str());
        s
    }
}

} // verus!
