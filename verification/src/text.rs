//! Decimal rendering of integers, as `to_string` and `{:?}` print them.
use vstd::prelude::*;

verus! {

/// The character of a decimal digit.
pub open spec fn digit_char(d: int) -> char {
    if d == 0 { '0' }
    else if d == 1 { '1' }
    else if d == 2 { '2' }
    else if d == 3 { '3' }
    else if d == 4 { '4' }
    else if d == 5 { '5' }
    else if d == 6 { '6' }
    else if d == 7 { '7' }
    else if d == 8 { '8' }
    else { '9' }
}

/// The decimal digits of `n`, most significant first, without leading zeros
/// (zero itself is the single digit `0`).
pub open spec fn decimal_text(n: nat) -> Seq<char>
    decreases n,
{
    if n < 10 {
        seq![digit_char(n as int)]
    } else {
        decimal_text(n / 10) + seq![digit_char((n % 10) as int)]
    }
}

/// A signed integer in decimal: a leading `-` for negative values.
pub open spec fn signed_decimal_text(n: int) -> Seq<char> {
    if n < 0 {
        seq!['-'] + decimal_text((-n) as nat)
    } else {
        decimal_text(n as nat)
    }
}

/// The number a string of decimal digits denotes, most significant first.
pub open spec fn digits_value(s: Seq<char>) -> int
    decreases s.len(),
{
    if s.len() == 0 {
        0
    } else {
        digits_value(s.drop_last()) * 10 + ((s.last() as int) - ('0' as int))
    }
}

/// Decimal rendering is faithful: it is made of digits only, has no leading
/// zero, and reading it back gives the number rendered; a signed rendering
/// starts with `-` exactly for negative numbers.
pub proof fn lemma_decimal_reads_back(n: nat, m: int)
    ensures
        decimal_text(n).len() >= 1,
        forall|i: int| 0 <= i < decimal_text(n).len() ==> '0' <= #[trigger] decimal_text(n)[i] <= '9',
        n >= 10 ==> decimal_text(n)[0] != '0',
        digits_value(decimal_text(n)) == n,
        (signed_decimal_text(m)[0] == '-') == (m < 0),
    decreases n,
{
    lemma_decimal_digits(n);
    if m < 0 {
        lemma_decimal_digits((-m) as nat);
    } else {
        lemma_decimal_digits(m as nat);
    }
}

proof fn lemma_digit_char_value(d: int)
    requires
        0 <= d < 10,
    ensures
        (digit_char(d) as int) - ('0' as int) == d,
        '0' <= digit_char(d) <= '9',
{
    assert(('0' as int) == 48);
    if d == 0 { assert(('0' as int) == 48); }
    else if d == 1 { assert(('1' as int) == 49); }
    else if d == 2 { assert(('2' as int) == 50); }
    else if d == 3 { assert(('3' as int) == 51); }
    else if d == 4 { assert(('4' as int) == 52); }
    else if d == 5 { assert(('5' as int) == 53); }
    else if d == 6 { assert(('6' as int) == 54); }
    else if d == 7 { assert(('7' as int) == 55); }
    else if d == 8 { assert(('8' as int) == 56); }
    else { assert(('9' as int) == 57); }
}

proof fn lemma_decimal_digits(n: nat)
    ensures
        decimal_text(n).len() >= 1,
        forall|i: int| 0 <= i < decimal_text(n).len() ==> '0' <= #[trigger] decimal_text(n)[i] <= '9',
        n >= 10 ==> decimal_text(n)[0] != '0',
        digits_value(decimal_text(n)) == n,
    decreases n,
{
    lemma_digit_char_value((n % 10) as int);
    if n < 10 {
        let t = decimal_text(n);
        assert(t.drop_last() =~= Seq::<char>::empty());
        assert(digits_value(t.drop_last()) == 0);
        assert(t.last() == digit_char(n as int));
        assert(digits_value(t) == digits_value(t.drop_last()) * 10 + ((t.last() as int) - ('0' as int)));
    } else {
        lemma_decimal_digits(n / 10);
        let rest = decimal_text(n / 10);
        let t = decimal_text(n);
        assert(t == rest + seq![digit_char((n % 10) as int)]);
        assert(t.drop_last() =~= rest);
        assert(t.last() == digit_char((n % 10) as int));
        assert(n == (n / 10) * 10 + n % 10);
        assert(digits_value(t) == digits_value(t.drop_last()) * 10 + ((t.last() as int) - ('0' as int)));
        assert(digits_value(rest) == n / 10);
        assert(t[0] == rest[0]);
        assert forall|i: int| 0 <= i < t.len() implies '0' <= #[trigger] t[i] <= '9' by {
            if i < rest.len() {
                assert(t[i] == rest[i]);
            }
        }
    }
}

fn digit_str(d: u128) -> (s: &'static str)
    requires
        d < 10,
    ensures
        s@ == seq![digit_char(d as int)],
{
    proof {
        reveal_strlit("0");
        reveal_strlit("1");
        reveal_strlit("2");
        reveal_strlit("3");
        reveal_strlit("4");
        reveal_strlit("5");
        reveal_strlit("6");
        reveal_strlit("7");
        reveal_strlit("8");
        reveal_strlit("9");
    }
    if d == 0 { "0" }
    else if d == 1 { "1" }
    else if d == 2 { "2" }
    else if d == 3 { "3" }
    else if d == 4 { "4" }
    else if d == 5 { "5" }
    else if d == 6 { "6" }
    else if d == 7 { "7" }
    else if d == 8 { "8" }
    else { "9" }
}

/// Renders `n` in decimal.
pub fn decimal_u128(n: u128) -> (s: String)
    ensures
        s@ == decimal_text(n as nat),
    decreases n,
{
    if n < 10 {
        String::from_str(digit_str(n))
    } else {
        let mut s = decimal_u128(n / 10);
        s.append(digit_str(n % 10));
        s
    }
}

/// Renders a signed 32-bit integer in decimal.
pub fn decimal_i32(n: i32) -> (s: String)
    ensures
        s@ == signed_decimal_text(n as int),
{
    if n < 0 {
        proof { reveal_strlit("-"); }
        let magnitude: u128 = (0i64 - (n as i64)) as u128;
        let mut s = String::from_str("-");
        let digits = decimal_u128(magnitude);
        s.append(digits.as_str());
        s
    } else {
        decimal_u128(n as u128)
    }
}

} // verus!
