//! Decimal integers written as text.
//!
//! A numeral is an optional sign followed by one or more of the digits
//! `0` to `9`, and nothing else: no blanks, no separators, no digits
//! from other scripts.

use vstd::prelude::*;
use vstd::string::is_ascii;
use vstd::string::is_ascii_spec_bytes;
use vstd::string::StringSliceAdditionalSpecFns;
use vstd::utf8::is_ascii_chars;

verus! {

/// The byte of `0` in ASCII.
const ASCII_ZERO: u8 = 48;

/// The byte of `9` in ASCII.
const ASCII_NINE: u8 = 57;

/// The byte of `+` in ASCII.
const ASCII_PLUS: u8 = 43;

/// The byte of `-` in ASCII.
const ASCII_MINUS: u8 = 45;

/// One of the ten characters `0` to `9`.
pub open spec fn is_digit(c: char) -> bool {
    '0' <= c && c <= '9'
}

/// The number a digit stands for.
pub open spec fn digit_value(c: char) -> nat {
    (c as int - '0' as int) as nat
}

/// Every character of `s` is a digit.
pub open spec fn all_digits(s: Seq<char>) -> bool {
    forall|i: int| 0 <= i < s.len() ==> is_digit(#[trigger] s[i])
}

/// The number that a run of digits denotes, most significant digit first.
pub open spec fn number_value(s: Seq<char>) -> nat
    decreases s.len(),
{
    if s.len() == 0 {
        0
    } else {
        10 * number_value(s.drop_last()) + digit_value(s.last())
    }
}

/// A numeral without its sign: one digit at least, and digits only.
pub open spec fn is_digit_run(s: Seq<char>) -> bool {
    s.len() > 0 && all_digits(s)
}

/// `s` without a leading `+`, if it has one.
pub open spec fn without_plus(s: Seq<char>) -> Seq<char> {
    if s.len() > 0 && s[0] == '+' {
        s.skip(1)
    } else {
        s
    }
}

/// The natural number that `s` denotes: an optional `+`, then a run of digits.
pub open spec fn parse_unsigned(s: Seq<char>) -> Option<nat> {
    let digits = without_plus(s);
    if is_digit_run(digits) {
        Some(number_value(digits))
    } else {
        None
    }
}

/// The integer that `s` denotes: an optional `+` or `-`, then a run of digits.
pub open spec fn parse_signed(s: Seq<char>) -> Option<int> {
    if s.len() > 0 && s[0] == '-' {
        let digits = s.skip(1);
        if is_digit_run(digits) {
            Some(-(number_value(digits) as int))
        } else {
            None
        }
    } else {
        match parse_unsigned(s) {
            Some(n) => Some(n as int),
            None => None,
        }
    }
}

/// What `s` denotes as a `u64`; `None` where it is no unsigned numeral or
/// its value does not fit.
pub open spec fn u64_numeral(s: Seq<char>) -> Option<u64> {
    match parse_unsigned(s) {
        Some(n) => if n <= u64::MAX {
            Some(n as u64)
        } else {
            None
        },
        None => None,
    }
}

/// What `s` denotes as an `i32`; `None` where it is no numeral or its value
/// does not fit.
pub open spec fn i32_numeral(s: Seq<char>) -> Option<i32> {
    match parse_signed(s) {
        Some(n) => if i32::MIN <= n <= i32::MAX {
            Some(n as i32)
        } else {
            None
        },
        None => None,
    }
}

/// The character that stands for the digit `d`.
pub open spec fn digit_char(d: nat) -> char
    recommends
        d < 10,
{
    ('0' as int + d) as char
}

/// The usual way to write `n`: digits only, and no leading zero but for
/// zero itself.
pub open spec fn decimal_text(n: nat) -> Seq<char>
    decreases n,
{
    if n < 10 {
        seq![digit_char(n)]
    } else {
        decimal_text(n / 10).push(digit_char(n % 10))
    }
}

/// `digit_char` and `digit_value` undo each other.
pub proof fn lemma_digit_char(d: nat)
    requires
        d < 10,
    ensures
        is_digit(digit_char(d)),
        digit_value(digit_char(d)) == d,
        digit_char(d) != '+',
        digit_char(d) != '-',
{
    assert('0' as int == 48);
    assert(digit_char(d) as int == 48 + d);
}

/// Writing a number and reading it back gives the number: `decimal_text(n)`
/// is a run of digits whose value is `n`.
pub proof fn lemma_decimal_text_reads_back(n: nat)
    ensures
        is_digit_run(decimal_text(n)),
        number_value(decimal_text(n)) == n,
        parse_unsigned(decimal_text(n)) == Some(n),
        parse_signed(decimal_text(n)) == Some(n as int),
    decreases n,
{
    let text = decimal_text(n);
    if n < 10 {
        lemma_digit_char(n);
        assert(text.drop_last() =~= Seq::<char>::empty());
        assert(number_value(text.drop_last()) == 0);
        assert(text.last() == digit_char(n));
    } else {
        let front = decimal_text(n / 10);
        lemma_decimal_text_reads_back(n / 10);
        lemma_digit_char(n % 10);
        assert(text.drop_last() =~= front);
        assert(text.last() == digit_char(n % 10));
        assert forall|i: int| 0 <= i < text.len() implies is_digit(#[trigger] text[i]) by {
            if i < front.len() {
                assert(text[i] == front[i]);
            }
        }
        assert(text[0] == front[0]);
    }
    assert(is_digit(text[0]));
    assert(without_plus(text) == text);
}

/// The value of a digit run read up to `i` never exceeds the value read
/// up to a later `j`.
pub proof fn lemma_prefix_value_grows(s: Seq<char>, i: int, j: int)
    requires
        0 <= i <= j <= s.len(),
    ensures
        number_value(s.subrange(0, i)) <= number_value(s.subrange(0, j)),
    decreases j - i,
{
    if i < j {
        lemma_prefix_value_grows(s, i, j - 1);
        assert(s.subrange(0, j).drop_last() =~= s.subrange(0, j - 1));
    }
}

/// What a run of digits denotes as a `u64`, or `None` where the text is
/// no digit run or the value does not fit.
pub open spec fn digits_to_u64(s: Seq<char>) -> Option<u64> {
    if is_digit_run(s) && number_value(s) <= u64::MAX {
        Some(number_value(s) as u64)
    } else {
        None
    }
}

/// A text with a character outside ASCII is no numeral of any kind.
pub proof fn lemma_numerals_are_ascii(s: Seq<char>)
    requires
        !is_ascii_chars(s),
    ensures
        parse_unsigned(s) is None,
        parse_signed(s) is None,
{
    let i = choose|i: int| 0 <= i < s.len() && !('\0' <= #[trigger] s[i] <= '\u{7f}');
    assert(!is_digit(s[i]));
    if i > 0 {
        assert(s.skip(1)[i - 1] == s[i]);
    }
}

/// `bytes` holds the characters of the ASCII text `text`, one byte each.
spec fn spells(bytes: Seq<u8>, text: Seq<char>) -> bool {
    &&& bytes.len() == text.len()
    &&& forall|i: int| 0 <= i < text.len() ==> #[trigger] bytes[i] as int == text[i] as int
}

/// The bytes of an ASCII string spell its characters.
proof fn lemma_ascii_bytes_spell(s: &str)
    requires
        is_ascii(s),
    ensures
        spells(s.spec_bytes(), s@),
{
    is_ascii_spec_bytes(s);
}

/// Reads the ASCII text `s` from position `start` to its end as a run of
/// digits.
fn read_digits(s: &str, start: usize) -> (value: Option<u64>)
    requires
        is_ascii(s),
        start <= s@.len(),
    ensures
        value == digits_to_u64(s@.skip(start as int)),
{
    let bytes = s.as_bytes();
    proof {
        lemma_ascii_bytes_spell(s);
    }
    let ghost digits = s@.skip(start as int);
    let n: usize = bytes.len();
    if start == n {
        return None;
    }
    let mut acc: u64 = 0;
    let mut i: usize = start;
    while i < n
        invariant
            start <= i <= n,
            n == s@.len(),
            spells(bytes@, s@),
            digits == s@.skip(start as int),
            all_digits(digits.subrange(0, i - start)),
            acc == number_value(digits.subrange(0, i - start)),
        decreases n - i,
    {
        let b: u8 = bytes[i];
        assert(digits[i - start] == s@[i as int]);
        if b < ASCII_ZERO || b > ASCII_NINE {
            assert(!is_digit(digits[i - start]));
            return None;
        }
        let d: u64 = (b - ASCII_ZERO) as u64;
        let ghost next = digits.subrange(0, i - start + 1);
        assert(next.drop_last() =~= digits.subrange(0, i - start));
        assert(next.last() == digits[i - start]);
        assert(number_value(next) == 10 * acc + d);
        proof {
            lemma_prefix_value_grows(digits, i - start + 1, digits.len() as int);
            assert(digits.subrange(0, digits.len() as int) =~= digits);
        }
        if acc > (u64::MAX - d) / 10 {
            return None;
        }
        acc = acc * 10 + d;
        i = i + 1;
    }
    assert(digits.subrange(0, i - start) =~= digits);
    Some(acc)
}

/// Reads `t` as an unsigned decimal numeral that fits a `u64`.
pub fn parse_u64(t: &str) -> (value: Option<u64>)
    ensures
        value == u64_numeral(t@),
{
    if !t.is_ascii() {
        proof {
            lemma_numerals_are_ascii(t@);
        }
        return None;
    }
    let bytes = t.as_bytes();
    proof {
        lemma_ascii_bytes_spell(t);
    }
    if bytes.len() == 0 {
        return None;
    }
    let start: usize = if bytes[0] == ASCII_PLUS {
        1
    } else {
        0
    };
    assert(t@[0] as int == bytes@[0] as int);
    assert(t@.skip(0) =~= t@);
    read_digits(t, start)
}

/// Reads `t` as a signed decimal numeral that fits an `i32`.
pub fn parse_i32(t: &str) -> (value: Option<i32>)
    ensures
        value == i32_numeral(t@),
{
    if !t.is_ascii() {
        proof {
            lemma_numerals_are_ascii(t@);
        }
        return None;
    }
    let bytes = t.as_bytes();
    proof {
        lemma_ascii_bytes_spell(t);
    }
    if bytes.len() == 0 {
        return None;
    }
    let first: u8 = bytes[0];
    assert(t@[0] as int == first as int);
    assert(t@.skip(0) =~= t@);
    if first == ASCII_MINUS {
        match read_digits(t, 1) {
            Some(magnitude) => if magnitude <= 2147483648 {
                Some((0 - magnitude as i64) as i32)
            } else {
                None
            },
            None => None,
        }
    } else {
        let start: usize = if first == ASCII_PLUS {
            1
        } else {
            0
        };
        match read_digits(t, start) {
            Some(magnitude) => if magnitude <= 2147483647 {
                Some(magnitude as i32)
            } else {
                None
            },
            None => None,
        }
    }
}

} // verus!
