use shutdown_timer::decimal::{parse_i32, parse_u64};

fn sample_texts() -> Vec<String> {
    let mut texts: Vec<String> = Vec::new();
    let fixed = [
        "", " ", "0", "00", "000", "7", "07", "007", "10", "23", "24", "59", "60", "99", "100",
        "9999", "+", "-", "+0", "-0", "+00", "-00", "+7", "-7", "+-7", "-+7", "++7", "--7", "7+",
        "7-", " 7", "7 ", "7 7", "1_000", "1,000", "1.0", "1e3", "0x10", "abc", "a1", "1a", "١٢",
        "１２", "1２", "é", "²", "\u{0}", "12\n", "\t12", "4294967295", "4294967296", "2147483647",
        "2147483648", "-2147483648", "-2147483649", "+2147483647", "+2147483648",
        "18446744073709551615", "18446744073709551616", "+18446744073709551615",
        "-18446744073709551615", "184467440737095516150", "99999999999999999999",
        "000000000000000000000000000000042", "-000000000000000000000000000000042",
        "00000000000000000000018446744073709551615", "00000000000000000000018446744073709551616",
        "-0000000000002147483648", "-0000000000002147483649", "99999999999999999999x",
        "340282366920938463463374607431768211456",
    ];
    for text in fixed {
        texts.push(text.to_string());
    }
    for n in -1100i64..1100 {
        texts.push(n.to_string());
        texts.push(format!("+{}", n));
        texts.push(format!("0{}", n));
        texts.push(format!("{} ", n));
    }
    let mut n: u128 = 1;
    while n < u128::MAX / 11 {
        for delta in [0u128, 1, 2] {
            texts.push((n - 1 + delta).to_string());
            texts.push(format!("-{}", n - 1 + delta));
        }
        n = n * 2;
    }
    texts
}

#[test]
fn parse_u64_agrees_with_the_standard_parser() {
    for text in sample_texts() {
        assert_eq!(parse_u64(&text), text.parse::<u64>().ok(), "on {:?}", text);
    }
}

#[test]
fn parse_i32_agrees_with_the_standard_parser() {
    for text in sample_texts() {
        assert_eq!(parse_i32(&text), text.parse::<i32>().ok(), "on {:?}", text);
    }
}

#[test]
fn parse_u64_reads_plain_numerals() {
    assert_eq!(parse_u64("0"), Some(0));
    assert_eq!(parse_u64("05"), Some(5));
    assert_eq!(parse_u64("+42"), Some(42));
    assert_eq!(parse_u64("86399"), Some(86399));
    assert_eq!(parse_u64("18446744073709551615"), Some(u64::MAX));
}

#[test]
fn parse_u64_rejects_what_is_no_unsigned_numeral() {
    assert_eq!(parse_u64(""), None);
    assert_eq!(parse_u64("+"), None);
    assert_eq!(parse_u64("-1"), None);
    assert_eq!(parse_u64("-0"), None);
    assert_eq!(parse_u64("1 "), None);
    assert_eq!(parse_u64("١"), None);
    assert_eq!(parse_u64("18446744073709551616"), None);
}

#[test]
fn parse_i32_reads_signed_numerals() {
    assert_eq!(parse_i32("0"), Some(0));
    assert_eq!(parse_i32("-0"), Some(0));
    assert_eq!(parse_i32("+15"), Some(15));
    assert_eq!(parse_i32("-15"), Some(-15));
    assert_eq!(parse_i32("2147483647"), Some(i32::MAX));
    assert_eq!(parse_i32("-2147483648"), Some(i32::MIN));
}

#[test]
fn parse_i32_rejects_what_is_no_numeral_or_does_not_fit() {
    assert_eq!(parse_i32(""), None);
    assert_eq!(parse_i32("-"), None);
    assert_eq!(parse_i32("+-1"), None);
    assert_eq!(parse_i32("abc"), None);
    assert_eq!(parse_i32("2147483648"), None);
    assert_eq!(parse_i32("-2147483649"), None);
}
