//! Numbers in decimal and octal notation.

use crate::text::chars_of;
use crate::text::string_of_range;
use vstd::prelude::*;

verus! {

/// The digit character of a value below ten.
pub open spec fn digit_char(d: nat) -> char {
    (48 + d) as u8 as char
}

/// `n` in the given base, most significant digit first, without leading zeros.
pub open spec fn digits(n: nat, base: nat) -> Seq<char>
    decreases n,
{
    if base < 2 || n < base {
        seq![digit_char(n)]
    } else {
        proof {
            assert(n / base < n) by (nonlinear_arith)
                requires
                    base >= 2,
                    n >= base,
            ;
        }
        digits(n / base, base).push(digit_char(n % base))
    }
}

/// `n` in decimal notation.
pub open spec fn decimal(n: nat) -> Seq<char> {
    digits(n, 10)
}

/// `n` in decimal notation, with a minus sign where it is negative.
pub open spec fn signed_decimal(n: int) -> Seq<char> {
    if n < 0 {
        "-"@ + decimal((-n) as nat)
    } else {
        decimal(n as nat)
    }
}

/// The number that a sequence of decimal digits stands for.
pub open spec fn digits_value(s: Seq<char>) -> nat
    decreases s.len(),
{
    if s.len() == 0 {
        0
    } else {
        digits_value(s.drop_last()) * 10 + (s.last() as u32 - 48) as nat
    }
}

/// Every character is a decimal digit.
pub open spec fn all_digits(s: Seq<char>) -> bool {
    forall|i: int| 0 <= i < s.len() ==> '0' <= #[trigger] s[i] <= '9'
}

/// `s` without a leading plus sign.
pub open spec fn without_plus(s: Seq<char>) -> Seq<char> {
    if s.len() > 0 && s[0] == '+' {
        s.drop_first()
    } else {
        s
    }
}

/// The number that a decimal numeral stands for: digits, after an optional plus sign.
pub open spec fn numeral_value(s: Seq<char>) -> Option<nat> {
    let body = without_plus(s);
    if body.len() > 0 && all_digits(body) {
        Some(digits_value(body))
    } else {
        None
    }
}

/// The `u64` that a decimal numeral stands for, where it fits.
pub open spec fn u64_numeral(s: Seq<char>) -> Option<u64> {
    match numeral_value(s) {
        Some(n) => if n <= u64::MAX { Some(n as u64) } else { None },
        None => None,
    }
}


// ---------------------------------------------------------------------------
// Writing
// ---------------------------------------------------------------------------
fn digit(d: u64) -> (c: char)
    requires
        d < 10,
    ensures
        c == digit_char(d as nat),
{
    (48 + d as u8) as char
}

/// `n` in the given base.
fn to_base(n: u64, base: u64) -> (s: String)
    requires
        2 <= base <= 10,
    ensures
        s@ == digits(n as nat, base as nat),
    decreases n,
{
    if n < base {
        let mut s = String::new();
        s.push(digit(n));
        s
    } else {
        assert(n / base < n) by (nonlinear_arith)
            requires
                base >= 2,
                n >= base,
        ;
        let mut s = to_base(n / base, base);
        s.push(digit(n % base));
        s
    }
}

/// `n` in decimal notation.
pub fn to_decimal(n: u64) -> (s: String)
    ensures
        s@ == decimal(n as nat),
{
    to_base(n, 10)
}

/// `n` in octal notation.
pub fn to_octal(n: u64) -> (s: String)
    ensures
        s@ == digits(n as nat, 8),
{
    to_base(n, 8)
}

/// `n` in decimal notation, with a minus sign where it is negative.
pub fn to_signed_decimal(n: i64) -> (s: String)
    ensures
        s@ == signed_decimal(n as int),
{
    if n < 0 {
        let magnitude: u64 = if n == i64::MIN {
            9223372036854775808u64
        } else {
            (-n) as u64
        };
        let text = to_decimal(magnitude);
        "-".to_owned().concat(&text)
    } else {
        to_decimal(n as u64)
    }
}

// ---------------------------------------------------------------------------
// Reading
// ---------------------------------------------------------------------------
/// The `u64` that a decimal numeral stands for, where it fits.
pub fn parse_u64(s: &str) -> (n: Option<u64>)
    ensures
        n == u64_numeral(s@),
{
    let chars = chars_of(s);
    let start: usize = if chars.len() > 0 && chars[0] == '+' {
        1
    } else {
        0
    };
    let ghost body = without_plus(s@);
    assert(body == s@.skip(start as int));
    if start >= chars.len() {
        return None;
    }
    let mut value: u64 = 0;
    let mut overflow: bool = false;
    let mut i: usize = start;
    while i < chars.len()
        invariant
            start <= i <= chars@.len(),
            chars@ == s@,
            body == without_plus(s@),
            body == s@.skip(start as int),
            forall|j: int| 0 <= j < i - start ==> '0' <= #[trigger] body[j] <= '9',
            !overflow ==> value == digits_value(body.take(i - start)),
            overflow ==> digits_value(body.take(i - start)) > u64::MAX,
        decreases chars@.len() - i,
    {
        let c: char = chars[i];
        assert(c == body[i - start]);
        if c < '0' || c > '9' {
            assert(!all_digits(body));
            assert(numeral_value(s@) is None);
            return None;
        }
        proof {
            assert(body.take(i - start + 1).drop_last() == body.take(i - start));
            assert(body.take(i - start + 1).last() == c);
        }
        let d: u64 = (c as u32 - 48) as u64;
        if !overflow {
            if value > (u64::MAX - d) / 10 {
                overflow = true;
            } else {
                value = value * 10 + d;
            }
        }
        i += 1;
    }
    assert(body.take(body.len() as int) == body);
    assert(all_digits(body));
    if overflow {
        None
    } else {
        Some(value)
    }
}

/// The `i64` that a decimal numeral, perhaps with a sign, stands for, where it fits.
pub open spec fn i64_numeral(s: Seq<char>) -> Option<i64> {
    if s.len() > 0 && s[0] == '-' {
        let body = s.skip(1);
        if body.len() > 0 && all_digits(body) && -digits_value(body) >= i64::MIN {
            Some((-digits_value(body)) as i64)
        } else {
            None
        }
    } else {
        match numeral_value(s) {
            Some(n) => if n <= i64::MAX {
                Some(n as i64)
            } else {
                None
            },
            None => None,
        }
    }
}

/// The `i64` that a decimal numeral, perhaps with a sign, stands for.
pub fn parse_i64(s: &str) -> (n: Option<i64>)
    ensures
        n == i64_numeral(s@),
{
    let chars = chars_of(s);
    if chars.len() > 0 && chars[0] == '-' {
        let body = string_of_range(&chars, 1, chars.len());
        assert(body@ =~= s@.skip(1));
        if chars.len() > 1 && chars[1] == '+' {
            assert(body@[0] == '+');
            return None;
        }
        assert(without_plus(body@) =~= body@);
        match parse_u64(&body) {
            Some(n) => if n <= 9_223_372_036_854_775_807 {
                Some(-(n as i64))
            } else if n == 9_223_372_036_854_775_808 {
                Some(i64::MIN)
            } else {
                None
            },
            None => None,
        }
    } else {
        match parse_u64(s) {
            Some(n) => if n <= 9_223_372_036_854_775_807 {
                Some(n as i64)
            } else {
                None
            },
            None => None,
        }
    }
}

// ---------------------------------------------------------------------------
// What is written is read back
// ---------------------------------------------------------------------------
proof fn lemma_decimal(n: nat)
    ensures
        decimal(n).len() > 0,
        all_digits(decimal(n)),
        digits_value(decimal(n)) == n,
    decreases n,
{
    let s = decimal(n);
    if n < 10 {
        assert(s.drop_last().len() == 0);
        assert(digits_value(s.drop_last()) == 0);
        assert(s.last() == digit_char(n));
    } else {
        lemma_decimal(n / 10);
        assert(s.drop_last() =~= decimal(n / 10));
        assert(s.last() == digit_char(n % 10));
        assert forall|i: int| 0 <= i < s.len() implies '0' <= #[trigger] s[i] <= '9' by {
            if i < s.len() - 1 {
                assert(decimal(n / 10)[i] == s[i]);
            }
        }
        assert(n == (n / 10) * 10 + n % 10);
    }
}

/// A number that is written in decimal notation is read back, with a plus sign before it too.
pub proof fn law_written_number_is_read_back(n: u64)
    ensures
        u64_numeral(decimal(n as nat)) == Some(n),
        u64_numeral(seq!['+'] + decimal(n as nat)) == Some(n),
{
    let s = decimal(n as nat);
    lemma_decimal(n as nat);
    assert('0' <= s[0] <= '9');
    assert((seq!['+'] + s).drop_first() =~= s);
}

/// A signed number that is written in decimal notation is read back.
pub proof fn law_written_signed_number_is_read_back(n: i64)
    ensures
        i64_numeral(signed_decimal(n as int)) == Some(n),
{
    reveal_strlit("-");
    if n < 0 {
        let s = decimal((-n) as nat);
        lemma_decimal((-n) as nat);
        assert(signed_decimal(n as int)[0] == '-');
        assert(signed_decimal(n as int).skip(1) =~= s);
    } else {
        let s = decimal(n as nat);
        lemma_decimal(n as nat);
        assert('0' <= s[0] <= '9');
    }
}

/// Only digits are read as a number, after at most one sign, and a number that does not fit is not
/// read.
pub proof fn law_only_digits_are_read(s: Seq<char>, i: int)
    ensures
        s.len() == 0 ==> u64_numeral(s) is None && i64_numeral(s) is None,
        0 < i < s.len() && !('0' <= s[i] <= '9') ==> u64_numeral(s) is None && i64_numeral(s) is None,
        s.len() > 0 && !('0' <= s[0] <= '9') && s[0] != '+' ==> u64_numeral(s) is None,
{
    let body = without_plus(s);
    if 0 < i < s.len() && !('0' <= s[i] <= '9') {
        if s[0] == '+' {
            assert(body[i - 1] == s[i]);
        } else {
            assert(body[i] == s[i]);
        }
        assert(s.skip(1)[i - 1] == s[i]);
    }
    if s.len() > 0 && s[0] != '+' {
        assert(body[0] == s[0]);
    }
}

/// A number in octal notation stands for itself: its last digit is the remainder, and the digits before
/// are those of the quotient.
pub proof fn law_octal_digits(n: nat)
    ensures
        n < 8 ==> digits(n, 8) == seq![digit_char(n)],
        n >= 8 ==> digits(n, 8) == digits(n / 8, 8).push(digit_char(n % 8)),
        n < 10 ==> digit_char(n) as u32 == '0' as u32 + n,
{
}

/// A number is written in digits alone, and in at least one.
pub proof fn law_number_is_written_in_digits(n: nat, i: int)
    ensures
        decimal(n).len() > 0,
        0 <= i < decimal(n).len() ==> '0' <= decimal(n)[i] <= '9',
{
    lemma_decimal(n);
}

} // verus!
