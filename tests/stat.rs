use flatplay::stat::{parse_start_time_ticks_from_stat, parse_u64_chars, StatError};

fn chars(s: &str) -> Vec<char> {
    s.chars().collect()
}

#[test]
fn parses_start_time_from_stat_line() {
    let stat = "12345 (flatplay) S 1 12345 12345 0 -1 4194560 100 0 0 0 3 1 0 0 20 0 1 0 987654 1 0 0 0 0 0 0 0 0 0 0 0 0 0 0";
    let start_time = parse_start_time_ticks_from_stat(stat)
        .expect("test stat line should include a valid start time");
    assert_eq!(start_time, 987654);
}

#[test]
fn command_name_with_parentheses_uses_last_one() {
    let stat = "42 (a) b (c)) S 1 42 42 0 -1 4194560 100 0 0 0 3 1 0 0 20 0 1 0 555 1 0 0";
    assert_eq!(parse_start_time_ticks_from_stat(stat), Ok(555));
    let spaced = "42 (x ) 1 2 3) S 1 42 42 0 -1 4194560 100 0 0 0 3 1 0 0 20 0 1 0 777 1";
    assert_eq!(parse_start_time_ticks_from_stat(spaced), Ok(777));
}

#[test]
fn stat_errors() {
    assert_eq!(parse_start_time_ticks_from_stat("12345 flatplay S 1"), Err(StatError::Malformed));
    assert_eq!(parse_start_time_ticks_from_stat("12345 (flatplay)"), Err(StatError::MissingFields));
    assert_eq!(
        parse_start_time_ticks_from_stat("12345 (flatplay) S 1 2 3"),
        Err(StatError::MissingStartTime)
    );
    let bad = "1 (p) S 1 1 1 0 -1 4194560 100 0 0 0 3 1 0 0 20 0 1 0 98x7 1";
    assert_eq!(parse_start_time_ticks_from_stat(bad), Err(StatError::InvalidStartTime));
    let wide_separator = "1 (p)\u{e9}S 1 1 1 0 -1 4194560 100 0 0 0 3 1 0 0 20 0 1 0 987 1 0 0";
    assert_eq!(parse_start_time_ticks_from_stat(wide_separator), Err(StatError::MissingFields));
    let tab_separator = "1 (p)\tS 1 1 1 0 -1 4194560 100 0 0 0 3 1 0 0 20 0 1 0 987 1 0 0";
    assert_eq!(parse_start_time_ticks_from_stat(tab_separator), Ok(987));
    let empty_rest = "1 (p) ";
    assert_eq!(parse_start_time_ticks_from_stat(empty_rest), Err(StatError::MissingStartTime));
}

#[test]
fn u64_parsing_edges() {
    assert_eq!(parse_u64_chars(&chars("0")), Some(0));
    assert_eq!(parse_u64_chars(&chars("+17")), Some(17));
    assert_eq!(parse_u64_chars(&chars("18446744073709551615")), Some(u64::MAX));
    assert_eq!(parse_u64_chars(&chars("18446744073709551616")), None);
    assert_eq!(parse_u64_chars(&chars("")), None);
    assert_eq!(parse_u64_chars(&chars("+")), None);
    assert_eq!(parse_u64_chars(&chars("-1")), None);
}
