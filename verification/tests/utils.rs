use shutdown_timer::utils::{make_secs, parse_number, regulate_24, regulate_60};

fn secs(hours: &str, minutes: &str, seconds: &str) -> u64 {
    make_secs(hours.to_string(), minutes.to_string(), seconds.to_string())
}

fn clamp(text: &str, max: i32) -> String {
    match text.parse::<i32>() {
        Ok(n) if n > max => max.to_string(),
        Ok(n) if n < 0 => "00".to_string(),
        Ok(_) => text.to_string(),
        Err(_) => "00".to_string(),
    }
}

fn field_texts() -> Vec<String> {
    let mut texts: Vec<String> = Vec::new();
    for text in [
        "", "abc", "-", "+", "-0", "+0", "+5", "007", "0023", "0024", "1.5", " 7", "7 ", "١٢",
        "2147483647", "2147483648", "-2147483648", "-2147483649", "99999999999",
    ] {
        texts.push(text.to_string());
    }
    for n in -130i32..130 {
        texts.push(n.to_string());
        texts.push(format!("{:02}", n));
        texts.push(format!("+{}", n));
    }
    texts
}

#[test]
fn make_secs_adds_up_hours_minutes_and_seconds() {
    assert_eq!(secs("01", "02", "03"), 3723);
    assert_eq!(secs("1", "2", "3"), 3723);
    assert_eq!(secs("00", "00", "05"), 5);
    assert_eq!(secs("23", "59", "59"), 86399);
    assert_eq!(secs("00", "00", "00"), 0);
}

#[test]
fn make_secs_follows_the_formula_for_every_small_triple() {
    for h in 0u64..30 {
        for m in 0u64..70 {
            for s in [0u64, 1, 9, 10, 59, 60, 61, 99, 100, 3599, 3600] {
                let expected = h * 3600 + m * 60 + s;
                assert_eq!(secs(&h.to_string(), &m.to_string(), &s.to_string()), expected);
                assert_eq!(
                    secs(&format!("{:02}", h), &format!("{:02}", m), &format!("{:02}", s)),
                    expected
                );
            }
        }
    }
}

#[test]
fn make_secs_enforces_no_upper_bound_on_a_field() {
    assert_eq!(secs("99", "99", "99"), 99 * 3600 + 99 * 60 + 99);
    assert_eq!(secs("1000", "0", "0"), 3_600_000);
    assert_eq!(secs("0", "0", "18446744073709551615"), u64::MAX);
    assert_eq!(secs("5124095576030431", "0", "15"), u64::MAX);
}

#[test]
fn make_secs_counts_an_unparsable_field_as_zero() {
    assert_eq!(secs("abc", "02", "03"), 123);
    assert_eq!(secs("01", "", "03"), 3603);
    assert_eq!(secs("01", "02", "-3"), 3720);
    assert_eq!(secs("1.5", " 2", "3 "), 0);
    assert_eq!(secs("x", "y", "z"), 0);
    assert_eq!(secs("18446744073709551616", "0", "7"), 7);
}

#[test]
fn parse_number_gives_the_value_or_zero() {
    assert_eq!(parse_number("42".to_string()), 42);
    assert_eq!(parse_number("+42".to_string()), 42);
    assert_eq!(parse_number("0042".to_string()), 42);
    assert_eq!(parse_number("".to_string()), 0);
    assert_eq!(parse_number("-42".to_string()), 0);
    assert_eq!(parse_number("forty-two".to_string()), 0);
    assert_eq!(parse_number("18446744073709551615".to_string()), u64::MAX);
    assert_eq!(parse_number("18446744073709551616".to_string()), 0);
}

#[test]
fn regulate_24_clamps_to_the_hour_range() {
    assert_eq!(regulate_24("24".to_string()), "23");
    assert_eq!(regulate_24("-1".to_string()), "00");
    assert_eq!(regulate_24("abc".to_string()), "00");
    assert_eq!(regulate_24("15".to_string()), "15");
}

#[test]
fn regulate_60_clamps_to_the_minute_range() {
    assert_eq!(regulate_60("60".to_string()), "59");
    assert_eq!(regulate_60("-1".to_string()), "00");
    assert_eq!(regulate_60("abc".to_string()), "00");
    assert_eq!(regulate_60("15".to_string()), "15");
}

#[test]
fn regulate_keeps_the_bounds_themselves() {
    assert_eq!(regulate_24("0".to_string()), "0");
    assert_eq!(regulate_24("23".to_string()), "23");
    assert_eq!(regulate_60("0".to_string()), "0");
    assert_eq!(regulate_60("59".to_string()), "59");
    assert_eq!(regulate_60("24".to_string()), "24");
}

#[test]
fn regulate_replaces_a_large_value_by_the_bound() {
    assert_eq!(regulate_24("9999".to_string()), "23");
    assert_eq!(regulate_60("9999".to_string()), "59");
    assert_eq!(regulate_24("2147483647".to_string()), "23");
    assert_eq!(regulate_60("2147483647".to_string()), "59");
}

#[test]
fn regulate_returns_a_value_in_range_as_it_was_typed() {
    assert_eq!(regulate_24("007".to_string()), "007");
    assert_eq!(regulate_24("+5".to_string()), "+5");
    assert_eq!(regulate_24("-0".to_string()), "-0");
    assert_eq!(regulate_60("0059".to_string()), "0059");
}

#[test]
fn regulate_falls_back_to_zero_on_what_is_no_i32() {
    assert_eq!(regulate_24("".to_string()), "00");
    assert_eq!(regulate_24("1.5".to_string()), "00");
    assert_eq!(regulate_24(" 7".to_string()), "00");
    assert_eq!(regulate_24("2147483648".to_string()), "00");
    assert_eq!(regulate_60("99999999999".to_string()), "00");
    assert_eq!(regulate_60("-99999999999".to_string()), "00");
}

#[test]
fn regulate_agrees_with_clamping_the_parsed_value() {
    for text in field_texts() {
        assert_eq!(regulate_24(text.clone()), clamp(&text, 23), "on {:?}", text);
        assert_eq!(regulate_60(text.clone()), clamp(&text, 59), "on {:?}", text);
    }
}

#[test]
fn regulate_twice_is_regulate_once() {
    for text in field_texts() {
        let once = regulate_24(text.clone());
        assert_eq!(regulate_24(once.clone()), once, "on {:?}", text);
        let once = regulate_60(text.clone());
        assert_eq!(regulate_60(once.clone()), once, "on {:?}", text);
    }
}

#[test]
fn a_regulated_field_counts_for_the_number_it_shows() {
    for text in field_texts() {
        let hours = regulate_24(text.clone());
        let shown = hours.parse::<i32>().unwrap();
        assert!((0..=23).contains(&shown), "on {:?}", text);
        assert_eq!(parse_number(hours), shown as u64, "on {:?}", text);
        let minutes = regulate_60(text.clone());
        let shown = minutes.parse::<i32>().unwrap();
        assert!((0..=59).contains(&shown), "on {:?}", text);
        assert_eq!(parse_number(minutes), shown as u64, "on {:?}", text);
    }
}
