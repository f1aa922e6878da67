//! The three text fields of the timer: what duration they add up to, and
//! how an edited field is brought back into its range.

use crate::decimal::{
    decimal_text, i32_numeral, is_digit, lemma_decimal_text_reads_back, number_value, parse_i32,
    parse_u64, u64_numeral,
};
use vstd::prelude::*;

verus! {

/// The text that an empty or rejected field falls back to.
pub open spec fn zero_text() -> Seq<char> {
    seq!['0', '0']
}

/// What a field contributes to the duration: the number it denotes as a
/// `u64`, and nothing where it denotes none.
pub open spec fn field_value(t: Seq<char>) -> nat {
    match u64_numeral(t) {
        Some(n) => n as nat,
        None => 0,
    }
}

/// The duration, in seconds, that the hour, minute and second fields add
/// up to.
pub open spec fn total_seconds(hours: Seq<char>, minutes: Seq<char>, seconds: Seq<char>) -> nat {
    field_value(hours) * 3600 + field_value(minutes) * 60 + field_value(seconds)
}

/// An edited field brought into `0..=max`: kept as typed where it denotes
/// a number in that range, replaced by `max_text` where the number is too
/// large, and by `00` where it is negative or the text denotes no `i32`.
pub open spec fn regulated(t: Seq<char>, max: int, max_text: Seq<char>) -> Seq<char> {
    match i32_numeral(t) {
        Some(n) => if n > max {
            max_text
        } else if n < 0 {
            zero_text()
        } else {
            t
        },
        None => zero_text(),
    }
}

/// An hour field brought into `0..=23`.
pub open spec fn regulated_24(t: Seq<char>) -> Seq<char> {
    regulated(t, 23, seq!['2', '3'])
}

/// A minute or second field brought into `0..=59`.
pub open spec fn regulated_60(t: Seq<char>) -> Seq<char> {
    regulated(t, 59, seq!['5', '9'])
}

/// `t` denotes an `i32` in `0..=max`.
pub open spec fn in_range(t: Seq<char>, max: int) -> bool {
    match i32_numeral(t) {
        Some(n) => 0 <= n <= max,
        None => false,
    }
}

/// Adds up the three fields to a duration in seconds. A field that is no
/// unsigned numeral counts as zero.
pub fn make_secs(hours: String, minutes: String, seconds: String) -> (secs: u64)
    requires
        total_seconds(hours@, minutes@, seconds@) <= u64::MAX,
    ensures
        secs == total_seconds(hours@, minutes@, seconds@),
{
    let h = parse_number(hours);
    let m = parse_number(minutes);
    let s = parse_number(seconds);

    h * 60 * 60 + m * 60 + s
}

/// The number that `t` denotes, or zero where it denotes none.
pub fn parse_number(t: String) -> (n: u64)
    ensures
        n == field_value(t@),
{
    match parse_u64(t.as_str()) {
        Some(num) => num,
        None => 0,
    }
}

/// Brings an edited hour field into `0..=23`.
pub fn regulate_24(t: String) -> (out: String)
    ensures
        out@ == regulated_24(t@),
{
    proof {
        reveal_strlit("23");
        reveal_strlit("00");
    }
    match parse_i32(t.as_str()) {
        Some(num) => {
            if num > 23 {
                "23".to_string()
            } else if num < 0 {
                "00".to_string()
            } else {
                t
            }
        },
        None => "00".to_string(),
    }
}

/// Brings an edited minute or second field into `0..=59`.
pub fn regulate_60(t: String) -> (out: String)
    ensures
        out@ == regulated_60(t@),
{
    proof {
        reveal_strlit("59");
        reveal_strlit("00");
    }
    match parse_i32(t.as_str()) {
        Some(num) => {
            if num > 59 {
                "59".to_string()
            } else if num < 0 {
                "00".to_string()
            } else {
                t
            }
        },
        None => "00".to_string(),
    }
}

/// For all numbers `h`, `m` and `s` that fit a `u64`, the fields that hold
/// them written in decimal add up to `h * 3600 + m * 60 + s` seconds.
pub proof fn lemma_total_seconds_of_numbers(h: nat, m: nat, s: nat)
    requires
        h <= u64::MAX,
        m <= u64::MAX,
        s <= u64::MAX,
    ensures
        total_seconds(decimal_text(h), decimal_text(m), decimal_text(s)) == h * 3600 + m * 60 + s,
{
    lemma_decimal_text_reads_back(h);
    lemma_decimal_text_reads_back(m);
    lemma_decimal_text_reads_back(s);
}

/// A field that is no numeral of a `u64` adds nothing to the duration: the
/// total is what the other two fields give.
pub proof fn lemma_unparsable_field_adds_nothing(
    hours: Seq<char>,
    minutes: Seq<char>,
    seconds: Seq<char>,
)
    ensures
        u64_numeral(hours) is None ==> total_seconds(hours, minutes, seconds) == field_value(
            minutes,
        ) * 60 + field_value(seconds),
        u64_numeral(minutes) is None ==> total_seconds(hours, minutes, seconds) == field_value(
            hours,
        ) * 3600 + field_value(seconds),
        u64_numeral(seconds) is None ==> total_seconds(hours, minutes, seconds) == field_value(
            hours,
        ) * 3600 + field_value(minutes) * 60,
{
}

/// Two digits denote ten times the first plus the second, as an `i32` and
/// as a field's contribution alike.
pub proof fn lemma_two_digits(a: char, b: char)
    requires
        is_digit(a),
        is_digit(b),
    ensures
        i32_numeral(seq![a, b]) == Some((10 * (a as int - '0' as int) + (b as int - '0' as int)) as i32),
        field_value(seq![a, b]) == 10 * (a as int - '0' as int) + (b as int - '0' as int),
{
    let t = seq![a, b];
    assert(t.drop_last() =~= seq![a]);
    assert(t.drop_last().drop_last() =~= Seq::<char>::empty());
    reveal_with_fuel(number_value, 3);
}

/// A cleared field denotes zero, which is in every range.
pub proof fn lemma_zero_text(max: int)
    requires
        0 <= max,
    ensures
        in_range(zero_text(), max),
        field_value(zero_text()) == 0,
{
    lemma_two_digits('0', '0');
}

/// A regulated field always denotes a number in its range.
pub proof fn lemma_regulated_in_range(t: Seq<char>)
    ensures
        in_range(regulated_24(t), 23),
        in_range(regulated_60(t), 59),
{
    lemma_two_digits('0', '0');
    lemma_two_digits('2', '3');
    lemma_two_digits('5', '9');
}

/// Regulating a field twice changes nothing more: what is in range stays
/// as it is.
pub proof fn lemma_regulate_is_idempotent(t: Seq<char>)
    ensures
        regulated_24(regulated_24(t)) == regulated_24(t),
        regulated_60(regulated_60(t)) == regulated_60(t),
{
    lemma_regulated_in_range(t);
}

/// A field in range contributes to the duration the very number it
/// denotes as an `i32`.
pub proof fn lemma_in_range_field_value(t: Seq<char>, max: int)
    requires
        in_range(t, max),
    ensures
        field_value(t) == i32_numeral(t).unwrap(),
        field_value(t) <= max,
{
    if t[0] == '-' {
        assert(!is_digit(t[0]));
    }
}

} // verus!
