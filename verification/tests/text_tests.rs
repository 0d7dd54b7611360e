use portscan::text::{
    find_char_from, has_char, has_sub, is_blank, join_from, parse_u16, parse_u64, split_lines,
    split_tokens, starts_with, trim_pair,
};

#[test]
fn lines_split_at_line_feeds_and_strip_carriage_returns() {
    assert_eq!(split_lines("a\nb\r\nc"), vec!["a", "b", "c"]);
    assert_eq!(split_lines("a\nb\n"), vec!["a", "b"]);
    assert_eq!(split_lines("a\n\nb"), vec!["a", "", "b"]);
    assert_eq!(split_lines(""), Vec::<String>::new());
    assert_eq!(split_lines("tail\r"), vec!["tail\r"]);
}

#[test]
fn tokens_split_at_whitespace_runs() {
    assert_eq!(split_tokens("  a  bb\tc  "), vec!["a", "bb", "c"]);
    assert_eq!(split_tokens(""), Vec::<String>::new());
    assert_eq!(split_tokens("   "), Vec::<String>::new());
    assert_eq!(split_tokens("one"), vec!["one"]);
}

#[test]
fn trimming_strips_both_ends_only() {
    assert_eq!(trim_pair("q|PING|", 'q', '|'), "PING");
    assert_eq!(trim_pair("m|a|b|", 'm', '|'), "a|b");
    assert_eq!(trim_pair("qq||", 'q', '|'), "");
    assert_eq!(trim_pair("plain", 'q', '|'), "plain");
}

#[test]
fn prefix_and_substring_checks() {
    assert!(starts_with("Probe TCP", "Probe "));
    assert!(!starts_with("Pro", "Probe "));
    assert!(has_sub("a**b", "**"));
    assert!(!has_sub("a*b*", "**"));
    assert!(has_char("a/b", '/'));
    assert!(!has_char("ab", '/'));
    assert!(is_blank("  \t "));
    assert!(is_blank(""));
    assert!(!is_blank(" x "));
}

#[test]
fn find_reports_the_first_occurrence_or_the_length() {
    assert_eq!(find_char_from("80/tcp", '/', 0), 2);
    assert_eq!(find_char_from("80/tcp/x", '/', 3), 6);
    assert_eq!(find_char_from("plain", '/', 0), 5);
}

#[test]
fn decimal_parsing_accepts_digits_only_and_checks_bounds() {
    assert_eq!(parse_u16("65535"), Some(65535));
    assert_eq!(parse_u16("65536"), None);
    assert_eq!(parse_u16("0"), Some(0));
    assert_eq!(parse_u16(""), None);
    assert_eq!(parse_u16("12a"), None);
    assert_eq!(parse_u16("-1"), None);
    assert_eq!(parse_u64("18446744073709551615"), Some(u64::MAX));
    assert_eq!(parse_u64("18446744073709551616"), None);
    assert_eq!(parse_u64("007"), Some(7));
}

#[test]
fn joining_inserts_single_spaces_from_the_start_index() {
    let parts = vec![
        String::from("svc"),
        String::from("80/tcp"),
        String::from("World"),
        String::from("Wide"),
        String::from("Web"),
    ];
    assert_eq!(join_from(&parts, 2), "World Wide Web");
    assert_eq!(join_from(&parts, 4), "Web");
    assert_eq!(join_from(&parts, 5), "");
}
