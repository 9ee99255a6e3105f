use rpc_gateway::text::{
    chars_of, contains_text, hex_digit, parse_u32, same_text, split, starts_with, trim_matches,
    trim_start_matches, unique_texts,
};

fn strings(items: &[&str]) -> Vec<String> {
    items.iter().map(|s| s.to_string()).collect()
}

#[test]
fn chars_of_keeps_every_character_in_order() {
    assert_eq!(chars_of("a€b"), vec!['a', '€', 'b']);
    assert_eq!(chars_of(""), Vec::<char>::new());
}

#[test]
fn same_text_compares_by_characters() {
    assert!(same_text("tx.hash", "tx.hash"));
    assert!(!same_text("tx.hash", "tx.hasH"));
    assert!(!same_text("tx", "tx.hash"));
    assert!(same_text("", ""));
}

#[test]
fn starts_with_looks_at_the_first_character() {
    assert!(starts_with("/status", '/'));
    assert!(!starts_with("status/", '/'));
    assert!(!starts_with("", '/'));
}

#[test]
fn split_on_comma_keeps_empty_pieces() {
    assert_eq!(split("a,,b", ','), strings(&["a", "", "b"]));
    assert_eq!(split(",", ','), strings(&["", ""]));
    assert_eq!(split("a,", ','), strings(&["a", ""]));
}

#[test]
fn split_of_a_text_without_separator_is_that_text() {
    assert_eq!(split("abc", ','), strings(&["abc"]));
    assert_eq!(split("", ','), strings(&[""]));
}

#[test]
fn split_agrees_with_the_standard_library() {
    for text in ["tx.hash=AB", "a=b=c", "=", "==", "no separator", "é=ü", "=x", "x="] {
        let expected: Vec<String> = text.split('=').map(|s| s.to_string()).collect();
        assert_eq!(split(text, '='), expected, "splitting {:?}", text);
    }
}

#[test]
fn trim_matches_strips_both_ends() {
    assert_eq!(trim_matches("\"\"abc\"", '"'), "abc");
    assert_eq!(trim_matches("'ab'c'", '\''), "ab'c");
    assert_eq!(trim_matches("abc", '"'), "abc");
}

#[test]
fn trim_matches_of_nothing_but_the_character_is_empty() {
    assert_eq!(trim_matches("\"\"\"", '"'), "");
    assert_eq!(trim_matches("", '"'), "");
}

#[test]
fn trim_matches_agrees_with_the_standard_library() {
    for text in ["'x'", "''", "'", "x'", "'x", "a'b", "'é'", "''''y''"] {
        assert_eq!(trim_matches(text, '\''), text.trim_matches('\''), "trimming {:?}", text);
    }
}

#[test]
fn trim_start_matches_strips_every_leading_slash() {
    assert_eq!(trim_start_matches("/block", '/'), "block");
    assert_eq!(trim_start_matches("//block/", '/'), "block/");
    assert_eq!(trim_start_matches("block", '/'), "block");
    assert_eq!(trim_start_matches("/", '/'), "");
}

#[test]
fn hex_digit_takes_both_cases() {
    for c in "0123456789abcdefABCDEF".chars() {
        assert!(hex_digit(c), "{:?}", c);
    }
    for c in "gGzZ/:@`- é".chars() {
        assert!(!hex_digit(c), "{:?}", c);
    }
}

#[test]
fn parse_u32_reads_decimal_numbers() {
    assert_eq!(parse_u32("0"), Some(0));
    assert_eq!(parse_u32("1000"), Some(1000));
    assert_eq!(parse_u32("+5"), Some(5));
    assert_eq!(parse_u32("0007"), Some(7));
    assert_eq!(parse_u32("4294967295"), Some(4294967295));
}

#[test]
fn parse_u32_refuses_what_is_no_number_or_does_not_fit() {
    assert_eq!(parse_u32(""), None);
    assert_eq!(parse_u32("+"), None);
    assert_eq!(parse_u32("-1"), None);
    assert_eq!(parse_u32(" 1"), None);
    assert_eq!(parse_u32("1 "), None);
    assert_eq!(parse_u32("1_000"), None);
    assert_eq!(parse_u32("12a"), None);
    assert_eq!(parse_u32("++1"), None);
    assert_eq!(parse_u32("4294967296"), None);
    assert_eq!(parse_u32("99999999999999999999999999"), None);
}

#[test]
fn parse_u32_agrees_with_the_standard_library() {
    for text in ["0", "42", "+42", "-42", "", "+", "4294967295", "4294967296", "00", "1e3", "٣"] {
        assert_eq!(parse_u32(text), text.parse::<u32>().ok(), "parsing {:?}", text);
    }
}

#[test]
fn contains_text_finds_by_characters() {
    let list = strings(&["tx_search", "block_search"]);
    assert!(contains_text(&list, "block_search"));
    assert!(!contains_text(&list, "block"));
    assert!(!contains_text(&Vec::new(), "block"));
}

#[test]
fn unique_texts_keeps_first_occurrences_in_order() {
    let list = strings(&["b", "a", "b", "c", "a", ""]);
    assert_eq!(unique_texts(&list), strings(&["b", "a", "c", ""]));
    assert_eq!(unique_texts(&Vec::new()), Vec::<String>::new());
}
