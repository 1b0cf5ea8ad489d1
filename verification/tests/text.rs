use adept::text::{chars_lex_le, chars_of, parse_u8, sort_by_lowercase, split, split_trimmed, split_words, string_from_chars, trim};

fn strings(items: &[&str]) -> Vec<String> {
    items.iter().map(|s| s.to_string()).collect()
}

#[test]
fn trim_removes_surrounding_white_space() {
    assert_eq!(trim("  Warlord \t"), "Warlord");
    assert_eq!(trim("All Natural"), "All Natural");
    assert_eq!(trim("   "), "");
    assert_eq!(trim(""), "");
}

#[test]
fn split_keeps_empty_pieces() {
    assert_eq!(split("a;b;;c", ';'), strings(&["a", "b", "", "c"]));
    assert_eq!(split("", ';'), strings(&[""]));
    assert_eq!(split(";", ';'), strings(&["", ""]));
}

#[test]
fn split_trimmed_trims_each_piece() {
    assert_eq!(
        split_trimmed("Warlord; All Natural;Whirlwind Attack ; Power Attack", ';'),
        strings(&["Warlord", "All Natural", "Whirlwind Attack", "Power Attack"])
    );
}

#[test]
fn split_words_drops_runs_of_white_space() {
    assert_eq!(split_words("  Luxurious   1 "), strings(&["Luxurious", "1"]));
    assert_eq!(split_words("Fire 3"), strings(&["Fire", "3"]));
    assert_eq!(split_words("   "), Vec::<String>::new());
    assert_eq!(split_words(""), Vec::<String>::new());
}

#[test]
fn parse_u8_reads_decimal() {
    assert_eq!(parse_u8("0"), Some(0));
    assert_eq!(parse_u8("4"), Some(4));
    assert_eq!(parse_u8("255"), Some(255));
    assert_eq!(parse_u8("+7"), Some(7));
    assert_eq!(parse_u8("007"), Some(7));
}

#[test]
fn parse_u8_refuses_what_str_parse_refuses() {
    for s in ["256", "", "+", "-1", "1a", " 1", "T4", "1000"] {
        assert_eq!(parse_u8(s), None, "{}", s);
        assert!(s.parse::<u8>().is_err());
    }
}

#[test]
fn parse_u8_agrees_with_str_parse() {
    for v in 0..=255u8 {
        let s = v.to_string();
        assert_eq!(parse_u8(&s), s.parse::<u8>().ok());
    }
}

#[test]
fn sort_by_lowercase_orders_ignoring_case() {
    let sorted = sort_by_lowercase(strings(&["warlord", "Adept", "bash", "Zen", "apt"]));
    assert_eq!(sorted, strings(&["Adept", "apt", "bash", "warlord", "Zen"]));
}

#[test]
fn sort_by_lowercase_keeps_every_item() {
    let input = strings(&["b", "A", "a", "B", "c"]);
    let mut sorted = sort_by_lowercase(input.clone());
    assert_eq!(sorted.len(), input.len());
    for w in sorted.windows(2) {
        assert!(w[0].to_lowercase() <= w[1].to_lowercase());
    }
    let mut original = input;
    original.sort();
    sorted.sort();
    assert_eq!(sorted, original);
}

#[test]
fn chars_round_trip() {
    let chars = chars_of("Sun God's Tomb");
    assert_eq!(chars.len(), 14);
    assert_eq!(string_from_chars(&chars, 0, 3), "Sun");
    assert_eq!(string_from_chars(&chars, 4, 14), "God's Tomb");
}

#[test]
fn chars_lex_le_compares_code_points() {
    assert!(chars_lex_le(&chars_of("abc"), &chars_of("abd")));
    assert!(chars_lex_le(&chars_of("ab"), &chars_of("abc")));
    assert!(!chars_lex_le(&chars_of("b"), &chars_of("abc")));
    assert!(chars_lex_le(&chars_of(""), &chars_of("")));
}

#[test]
fn sort_by_lowercase_is_stable() {
    let sorted = sort_by_lowercase(strings(&["b", "B", "a", "A", "bb", "Ab"]));
    assert_eq!(sorted, strings(&["a", "A", "Ab", "b", "B", "bb"]));
    let sorted = sort_by_lowercase(strings(&["X", "x", "X"]));
    assert_eq!(sorted, strings(&["X", "x", "X"]));
}
