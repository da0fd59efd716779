//! Numbers as texts and texts as numbers.
use vstd::prelude::*;
use vstd::string::*;

use crate::text::chars_of;

verus! {

/// The character of a decimal digit.
pub open spec fn digit_char(d: nat) -> char {
    (d + 48) as char
}

/// A number in decimal notation.
pub open spec fn decimal(n: nat) -> Seq<char>
    decreases n,
{
    if n < 10 {
        seq![digit_char(n)]
    } else {
        decimal(n / 10).push(digit_char(n % 10))
    }
}

/// A number in decimal notation, with a sign where it is negative.
pub open spec fn signed_decimal(n: int) -> Seq<char> {
    if n < 0 {
        "-"@ + decimal((-n) as nat)
    } else {
        decimal(n as nat)
    }
}

fn digit(d: u8) -> (c: char)
    requires
        d < 10,
    ensures
        c == digit_char(d as nat),
{
    (d + 48) as char
}

/// Writes a number in decimal notation.
pub fn decimal_text(n: u128) -> (res: String)
    ensures
        res@ == decimal(n as nat),
    decreases n,
{
    if n < 10 {
        let mut res = String::new();
        res.push(digit(n as u8));
        assert(res@ =~= decimal(n as nat));
        res
    } else {
        let mut res = decimal_text(n / 10);
        res.push(digit((n % 10) as u8));
        res
    }
}

/// Writes a number in decimal notation.
pub fn signed_text(n: i64) -> (res: String)
    ensures
        res@ == signed_decimal(n as int),
{
    if n < 0 {
        let mut res = "-".to_string();
        res.append(decimal_text((-(n as i128)) as u128).as_str());
        res
    } else {
        decimal_text(n as u128)
    }
}

/// A decimal digit.
pub open spec fn is_digit(c: char) -> bool {
    '0' <= c && c <= '9'
}

/// A text made of decimal digits, one at least.
pub open spec fn all_digits(s: Seq<char>) -> bool {
    s.len() > 0 && forall|i: int| 0 <= i < s.len() ==> is_digit(#[trigger] s[i])
}

/// The number that decimal digits stand for.
pub open spec fn digits_value(s: Seq<char>) -> nat
    decreases s.len(),
{
    if s.len() == 0 {
        0
    } else {
        10 * digits_value(s.drop_last()) + (s.last() as u32 - 48) as nat
    }
}

/// A text without the sign in front of it, if it has this one.
pub open spec fn unsigned_part(s: Seq<char>, sign: char) -> Seq<char> {
    if s.len() > 0 && s[0] == sign {
        s.skip(1)
    } else {
        s
    }
}

/// The number up to `max` that a text stands for: decimal digits, or a plus sign and decimal
/// digits.
pub open spec fn parsed_nat(s: Seq<char>, max: nat) -> Option<nat> {
    let digits = unsigned_part(s, '+');
    if all_digits(digits) && digits_value(digits) <= max {
        Some(digits_value(digits))
    } else {
        None
    }
}

/// The 64-bit number that a text stands for: decimal digits, or a sign and decimal digits.
pub open spec fn parsed_i64(s: Seq<char>) -> Option<int> {
    if s.len() > 0 && s[0] == '-' {
        if all_digits(s.skip(1)) && -digits_value(s.skip(1)) >= i64::MIN {
            Some(-digits_value(s.skip(1)))
        } else {
            None
        }
    } else {
        match parsed_nat(s, i64::MAX as nat) {
            Some(n) => Some(n as int),
            None => None,
        }
    }
}

/// The number up to `max` that the digits from `from` on stand for.
fn digits_from(chars: &Vec<char>, from: usize, max: u64) -> (res: Option<u64>)
    requires
        from <= chars@.len(),
    ensures
        res == (if all_digits(chars@.skip(from as int)) && digits_value(chars@.skip(from as int))
            <= max {
            Some(digits_value(chars@.skip(from as int)) as u64)
        } else {
            None
        }),
{
    if from == chars.len() {
        return None;
    }
    let ghost digits = chars@.skip(from as int);
    let mut sum: u128 = 0;
    let mut high: bool = false;
    let mut i: usize = from;
    assert(digits.take(0) =~= Seq::empty());
    while i < chars.len()
        invariant
            from <= i <= chars@.len(),
            digits == chars@.skip(from as int),
            forall|j: int| 0 <= j < i - from ==> is_digit(#[trigger] digits[j]),
            high ==> digits_value(digits.take(i - from)) > max,
            !high ==> sum <= max && sum == digits_value(digits.take(i - from)),
        decreases chars@.len() - i,
    {
        let c = chars[i];
        assert(c == digits[i - from]);
        if !('0' <= c && c <= '9') {
            return None;
        }
        assert(digits.take(i - from + 1).drop_last() =~= digits.take(i - from));
        if !high {
            sum = 10 * sum + (c as u32 - 48) as u128;
            if sum > max as u128 {
                high = true;
            }
        }
        i = i + 1;
    }
    assert(digits.take(i - from) =~= digits);
    if high {
        None
    } else {
        Some(sum as u64)
    }
}

/// Reads a number up to `max`.
pub fn parse_nat(s: &str, max: u64) -> (res: Option<u64>)
    ensures
        match res {
            Some(n) => parsed_nat(s@, max as nat) == Some(n as nat),
            None => parsed_nat(s@, max as nat) is None,
        },
{
    let chars = chars_of(s);
    assert(chars@.skip(0) =~= chars@);
    if chars.len() > 0 && chars[0] == '+' {
        digits_from(&chars, 1, max)
    } else {
        digits_from(&chars, 0, max)
    }
}

/// Reads a signed 64-bit number.
pub fn parse_i64(s: &str) -> (res: Option<i64>)
    ensures
        match res {
            Some(n) => parsed_i64(s@) == Some(n as int),
            None => parsed_i64(s@) is None,
        },
{
    let chars = chars_of(s);
    if chars.len() > 0 && chars[0] == '-' {
        match digits_from(&chars, 1, 0x8000_0000_0000_0000) {
            Some(n) => Some((-(n as i128)) as i64),
            None => None,
        }
    } else {
        match parse_nat(s, i64::MAX as u64) {
            Some(n) => Some(n as i64),
            None => None,
        }
    }
}

proof fn decimal_is_digits(n: nat)
    ensures
        all_digits(decimal(n)),
        digits_value(decimal(n)) == n,
    decreases n,
{
    if n >= 10 {
        decimal_is_digits(n / 10);
        assert(decimal(n).drop_last() =~= decimal(n / 10));
    } else {
        assert(decimal(n).drop_last() =~= Seq::empty());
        assert(digits_value(decimal(n).drop_last()) == 0);
    }
}

/// A number that was written is read back, where it is in the range that the reader allows.
pub proof fn decimal_reads_back(n: nat, max: nat)
    requires
        n <= max,
    ensures
        parsed_nat(decimal(n), max) == Some(n),
{
    decimal_is_digits(n);
    assert(is_digit(decimal(n)[0]));
}

/// A signed number that was written is read back.
pub proof fn signed_decimal_reads_back(n: i64)
    ensures
        parsed_i64(signed_decimal(n as int)) == Some(n as int),
{
    if n < 0 {
        let s = signed_decimal(n as int);
        reveal_strlit("-");
        assert(s.skip(1) =~= decimal((-n) as nat));
        decimal_is_digits((-n) as nat);
    } else {
        decimal_is_digits(n as nat);
        assert(is_digit(decimal(n as nat)[0]));
    }
}

/// A digit more at the end of a number makes it ten times as large and adds the digit. One digit
/// stands for itself.
pub proof fn digit_more_is_ten_times(n: nat, d: nat)
    requires
        d < 10,
    ensures
        n > 0 ==> decimal(10 * n + d) == decimal(n).push((48 + d) as char),
        decimal(d) == seq![(48 + d) as char],
{
    assert((10 * n + d) / 10 == n);
    assert((10 * n + d) % 10 == d);
}

/// No two numbers are written alike.
pub proof fn decimal_is_unique(a: nat, b: nat)
    requires
        decimal(a) == decimal(b),
    ensures
        a == b,
{
    decimal_is_digits(a);
    decimal_is_digits(b);
}

/// A text is read as a number digit by digit: each multiplies what was read before it by ten and is
/// added to it. Nothing is read where a character is no digit, but for a plus sign in front, or where
/// the number is larger than allowed.
pub proof fn number_is_read_by_digits(s: Seq<char>, c: char, max: nat)
    ensures
        parsed_nat(Seq::empty(), max) is None,
        !('0' <= c && c <= '9') ==> parsed_nat(s.push(c), max) is None,
        '0' <= c && c <= '9' ==> ({
            let d = c as u32 - 48;
            if s.len() == 0 || s == seq!['+'] {
                parsed_nat(s.push(c), max) == (if d <= max {
                    Some(d as nat)
                } else {
                    None
                })
            } else {
                match parsed_nat(s, max) {
                    Some(n) => parsed_nat(s.push(c), max) == (if 10 * n + d <= max {
                        Some((10 * n + d) as nat)
                    } else {
                        None
                    }),
                    None => parsed_nat(s.push(c), max) is None,
                }
            }
        }),
{
    let t = s.push(c);
    let digits = unsigned_part(t, '+');
    assert(t[t.len() - 1] == c);
    if !is_digit(c) {
        if all_digits(digits) {
            assert(is_digit(digits[digits.len() - 1]));
        }
    } else if s.len() == 0 || s == seq!['+'] {
        assert(digits =~= seq![c]);
        assert(digits.drop_last() =~= Seq::empty());
        assert(digits_value(digits.drop_last()) == 0);
        assert(is_digit(digits[0]));
    } else {
        let before = unsigned_part(s, '+');
        assert(s[0] == t[0]);
        assert(digits =~= before.push(c));
        assert(digits.drop_last() =~= before);
        if before.len() == 0 {
            assert(s =~= seq!['+']);
        }
        if all_digits(digits) {
            assert forall|i: int| 0 <= i < before.len() implies is_digit(#[trigger] before[i]) by {
                assert(digits[i] == before[i]);
            }
        }
        if all_digits(before) {
            assert forall|i: int| 0 <= i < digits.len() implies is_digit(#[trigger] digits[i]) by {
                if i < before.len() {
                    assert(digits[i] == before[i]);
                }
            }
        }
    }
}

/// A text without a minus sign in front is read as a number of 64 bits as it is without one; with
/// one it is read as the negative of what follows, where no second sign follows.
pub proof fn sign_turns_number(s: Seq<char>)
    ensures
        s.len() == 0 || s[0] != '-' ==> match parsed_nat(s, 0x7fff_ffff_ffff_ffff) {
            Some(n) => parsed_i64(s) == Some(n as int),
            None => parsed_i64(s) is None,
        },
        s.len() == 0 || s[0] != '+' ==> match parsed_nat(s, 0x8000_0000_0000_0000) {
            Some(n) => parsed_i64(seq!['-'] + s) == Some(-n),
            None => parsed_i64(seq!['-'] + s) is None,
        },
        s.len() > 0 && s[0] == '+' ==> parsed_i64(seq!['-'] + s) is None,
{
    let t = seq!['-'] + s;
    assert(t[0] == '-');
    assert(t.skip(1) =~= s);
    if s.len() > 0 && s[0] == '+' {
        assert(!is_digit(s[0]));
    }
}

/// A negative number is written as a minus sign and the number without its sign.
pub proof fn sign_is_written_first(n: nat)
    requires
        n > 0,
    ensures
        signed_decimal(-n) == seq!['-'] + signed_decimal(n as int),
        signed_decimal(n as int) == decimal(n),
        signed_decimal(0) == decimal(0),
{
    reveal_strlit("-");
    assert("-"@ =~= seq!['-']);
}

} // verus!
