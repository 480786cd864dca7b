//! Decimal numbers: how they are written and how they are read.
use crate::text::chars_of;
use vstd::prelude::*;

verus! {

/// The digit `d` as a character.
pub open spec fn digit_char(d: nat) -> char {
    (0x30 + d) as char
}

/// Whether `c` is one of the digits `0` to `9`.
pub open spec fn is_digit(c: char) -> bool {
    0x30 <= c as u32 <= 0x39
}

/// The value of a digit.
pub open spec fn digit_value(c: char) -> nat {
    (c as u32 - 0x30) as nat
}

/// `n` in decimal, without leading zeros.
pub open spec fn decimal(n: nat) -> Seq<char>
    decreases n,
{
    if n < 10 {
        seq![digit_char(n)]
    } else {
        decimal(n / 10).push(digit_char(n % 10))
    }
}

/// `n` in decimal, with a minus sign in front where it is negative.
pub open spec fn signed_decimal(n: int) -> Seq<char> {
    if n < 0 {
        seq!['-'] + decimal((-n) as nat)
    } else {
        decimal(n as nat)
    }
}

/// Whether `s` is made of digits alone.
pub open spec fn all_digits(s: Seq<char>) -> bool {
    forall|i: int| 0 <= i < s.len() ==> is_digit(#[trigger] s[i])
}

/// The number that a row of digits stands for.
pub open spec fn digits_value(s: Seq<char>) -> nat
    decreases s.len(),
{
    if s.len() == 0 {
        0
    } else {
        digits_value(s.drop_last()) * 10 + digit_value(s.last())
    }
}

/// `s` without the one plus sign that may stand in front of a number.
pub open spec fn without_plus(s: Seq<char>) -> Seq<char> {
    if s.len() > 0 && s[0] == '+' {
        s.skip(1)
    } else {
        s
    }
}

/// The number that `s` stands for: at least one digit and nothing but digits behind an
/// optional plus sign, and a value that a `usize` can hold.
pub open spec fn number_in(s: Seq<char>) -> Option<nat> {
    let digits = without_plus(s);
    if digits.len() > 0 && all_digits(digits) && digits_value(digits) <= usize::MAX {
        Some(digits_value(digits))
    } else {
        None
    }
}

/// Writes a number in decimal.
pub fn decimal_text(n: u64) -> (r: String)
    ensures
        r@ == decimal(n as nat),
    decreases n,
{
    let digit: u8 = (n % 10) as u8;
    let mut out = if n < 10 {
        String::new()
    } else {
        decimal_text(n / 10)
    };
    out.push((48u8 + digit) as char);
    proof {
        if n < 10 {
            assert(out@ =~= decimal(n as nat));
        }
    }
    out
}

/// Writes a count in decimal.
pub fn count_text(n: usize) -> (r: String)
    ensures
        r@ == decimal(n as nat),
{
    decimal_text(n as u64)
}

/// Writes a signed number in decimal.
pub fn signed_text(n: i64) -> (r: String)
    ensures
        r@ == signed_decimal(n as int),
{
    if n < 0 {
        let magnitude: u64 = (-(n + 1)) as u64 + 1;
        let digits = decimal_text(magnitude);
        let mut out = String::new();
        out.push('-');
        out.append(digits.as_str());
        assert(out@ =~= signed_decimal(n as int));
        out
    } else {
        decimal_text(n as u64)
    }
}

proof fn lemma_value_of_start(s: Seq<char>, n: int)
    requires
        0 <= n <= s.len(),
    ensures
        digits_value(s.take(n)) <= digits_value(s),
    decreases s.len() - n,
{
    if n < s.len() {
        assert(s.take(n) =~= s.take(n + 1).drop_last());
        lemma_value_of_start(s, n + 1);
    } else {
        assert(s.take(n) =~= s);
    }
}

/// Reads a count; `None` where the text is no number or the number is too large.
pub fn parse_count(s: &str) -> (r: Option<usize>)
    ensures
        r.is_some() == number_in(s@).is_some(),
        r.is_some() ==> r.unwrap() == number_in(s@).unwrap(),
{
    let chars = chars_of(s);
    let from: usize = if chars.len() > 0 && chars[0] == '+' {
        1
    } else {
        0
    };
    if from == chars.len() {
        return None;
    }
    let ghost digits = without_plus(s@);
    proof {
        assert(digits =~= s@.skip(from as int));
    }
    let mut value: usize = 0;
    let mut i: usize = from;
    while i < chars.len()
        invariant
            from <= i <= chars@.len(),
            chars@ == s@,
            digits == without_plus(s@),
            digits == s@.skip(from as int),
            digits.len() > 0,
            all_digits(digits.take(i - from)),
            value == digits_value(digits.take(i - from)),
        decreases chars@.len() - i,
    {
        let c = chars[i];
        let ghost n = i - from;
        let ghost next = digits.take(n + 1);
        proof {
            assert(next.drop_last() =~= digits.take(n));
            assert(next.last() == c);
            assert(digits[n] == c);
            lemma_value_of_start(digits, n + 1);
        }
        let code: u32 = c as u32;
        if code < 48 || code > 57 {
            return None;
        }
        let digit: usize = (code - 48) as usize;
        assert(digits_value(next) == value * 10 + digit);
        if value > (usize::MAX - digit) / 10 {
            return None;
        }
        value = value * 10 + digit;
        proof {
            assert forall|k: int| 0 <= k < next.len() implies is_digit(#[trigger] next[k]) by {
                if k < n {
                    assert(digits.take(n)[k] == next[k]);
                }
            }
        }
        i += 1;
    }
    proof {
        assert(digits.take(i - from) =~= digits);
    }
    Some(value)
}

proof fn lemma_decimal_digits(n: nat)
    ensures
        decimal(n).len() > 0,
        all_digits(decimal(n)),
        digits_value(decimal(n)) == n,
    decreases n,
{
    if n < 10 {
        let s = decimal(n);
        assert(s.drop_last() =~= Seq::<char>::empty());
        assert(digits_value(s.drop_last()) == 0);
    } else {
        lemma_decimal_digits(n / 10);
        let s = decimal(n);
        assert(s.drop_last() =~= decimal(n / 10));
        assert forall|i: int| 0 <= i < s.len() implies is_digit(#[trigger] s[i]) by {
            if i < s.len() - 1 {
                assert(s[i] == decimal(n / 10)[i]);
            }
        }
    }
}

/// A count that was written in decimal is read back as it was, with or without a plus sign
/// in front.
pub proof fn law_count_round_trip(n: usize)
    ensures
        number_in(decimal(n as nat)) == Some(n as nat),
        number_in(seq!['+'] + decimal(n as nat)) == Some(n as nat),
{
    lemma_decimal_digits(n as nat);
    let s = decimal(n as nat);
    assert(is_digit(s[0]));
    assert(without_plus(s) =~= s);
    assert((seq!['+'] + s).skip(1) =~= s);
}

/// A number in decimal is made of the digits `0` to `9`, has no zero in front unless it is
/// zero, and its digits stand for the number.
pub proof fn law_decimal(n: nat)
    ensures
        decimal(n).len() > 0,
        forall|i: int| 0 <= i < decimal(n).len() ==> '0' <= #[trigger] decimal(n)[i] <= '9',
        decimal(n).len() > 1 ==> decimal(n)[0] != '0',
        digits_value(decimal(n)) == n,
    decreases n,
{
    lemma_decimal_digits(n);
    if n >= 10 {
        law_decimal(n / 10);
        assert(decimal(n)[0] == decimal(n / 10)[0]);
        if decimal(n / 10).len() == 1 {
            let s = decimal(n / 10);
            assert(s.drop_last() =~= seq![]);
            assert(digits_value(s.drop_last()) == 0);
            assert(digit_value(s[0]) == n / 10);
        }
    }
    assert forall|i: int| 0 <= i < decimal(n).len() implies '0' <= #[trigger] decimal(n)[i]
        <= '9' by {
        assert(is_digit(decimal(n)[i]));
    }
}

/// A digit behind others makes them count ten times as much.
pub proof fn law_digits_count_by_place(s: Seq<char>, c: char)
    requires
        '0' <= c <= '9',
    ensures
        digits_value(s.push(c)) == 10 * digits_value(s) + (c as u32 - '0' as u32),
        digits_value(seq![]) == 0,
{
    assert(s.push(c).drop_last() =~= s);
}

/// A negative number is written like the positive one, behind a minus sign, and one that is
/// not negative has none.
pub proof fn law_signed_decimal(n: nat)
    ensures
        signed_decimal(n as int) == decimal(n),
        n > 0 ==> signed_decimal(-n) == seq!['-'] + decimal(n),
{
}

/// Different numbers are written differently.
pub proof fn law_numbers_are_told_apart(a: int, b: int)
    ensures
        signed_decimal(a) == signed_decimal(b) <==> a == b,
{
    let x = (if a < 0 {
        -a
    } else {
        a
    }) as nat;
    let y = (if b < 0 {
        -b
    } else {
        b
    }) as nat;
    law_decimal(x);
    law_decimal(y);
    if signed_decimal(a) == signed_decimal(b) {
        assert('0' <= decimal(x)[0] <= '9');
        assert('0' <= decimal(y)[0] <= '9');
        assert((a < 0) == (b < 0)) by {
            if a < 0 {
                assert(signed_decimal(a)[0] == '-');
            }
            if b < 0 {
                assert(signed_decimal(b)[0] == '-');
            }
        }
        if a < 0 {
            assert(signed_decimal(a).skip(1) =~= decimal(x));
            assert(signed_decimal(b).skip(1) =~= decimal(y));
        }
    }
}

proof fn lemma_digit_is_between(c: char)
    requires
        is_digit(c),
    ensures
        '0' <= c <= '9',
{
}

/// Whether `s` is at least one digit, and nothing but digits.
pub open spec fn is_digits(s: Seq<char>) -> bool {
    s.len() > 0 && forall|i: int| 0 <= i < s.len() ==> '0' <= #[trigger] s[i] <= '9'
}

/// A text is read as a number exactly when it is digits, with or without one plus sign in
/// front, whose value a `usize` can hold. It is then read as that value.
pub proof fn law_numbers_are_read(digits: Seq<char>, s: Seq<char>)
    requires
        is_digits(digits),
    ensures
        digits_value(digits) <= usize::MAX ==> number_in(digits) == Some(digits_value(digits))
            && number_in(seq!['+'] + digits) == Some(digits_value(digits)),
        digits_value(digits) > usize::MAX ==> number_in(digits) is None && number_in(
            seq!['+'] + digits,
        ) is None,
        number_in(s) is Some ==> is_digits(s) || s.len() > 0 && s[0] == '+' && is_digits(s.skip(1)),
{
    let plus = seq!['+'] + digits;
    assert('0' <= digits[0] <= '9');
    assert(without_plus(digits) == digits);
    assert(plus.skip(1) =~= digits);
    assert(without_plus(plus) == digits);
    assert forall|i: int| 0 <= i < digits.len() implies is_digit(#[trigger] digits[i]) by {}
    if number_in(s) is Some {
        let d = without_plus(s);
        assert(all_digits(d));
        assert forall|i: int| 0 <= i < d.len() implies '0' <= #[trigger] d[i] <= '9' by {
            let c: char = d[i];
            assert(is_digit(c));
            lemma_digit_is_between(c);
        }
        assert(is_digits(d));
    }
}

} // verus!
