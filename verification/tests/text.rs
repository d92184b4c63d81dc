use kubectl_light::text::{
    char_is_whitespace, decimal_text, join_lines, split_whitespace, str_eq,
    str_eq_ignore_ascii_case, str_lex_lt, to_chars,
};

fn strings(words: &[&str]) -> Vec<String> {
    words.iter().map(|w| w.to_string()).collect()
}

#[test]
fn splits_on_runs_of_whitespace() {
    assert_eq!(split_whitespace("get pods -n kube-system"), strings(&["get", "pods", "-n", "kube-system"]));
    assert_eq!(split_whitespace("  get \t pods\n"), strings(&["get", "pods"]));
    assert_eq!(split_whitespace("one"), strings(&["one"]));
}

#[test]
fn splits_nothing_out_of_blank_text() {
    assert_eq!(split_whitespace(""), Vec::<String>::new());
    assert_eq!(split_whitespace(" \t\r\n "), Vec::<String>::new());
}

#[test]
fn splits_on_unicode_whitespace_and_keeps_other_characters() {
    assert_eq!(split_whitespace("a\u{00A0}b\u{3000}c\u{2003}d"), strings(&["a", "b", "c", "d"]));
    assert_eq!(split_whitespace("caf\u{e9} \u{4e16}\u{754c}"), strings(&["caf\u{e9}", "\u{4e16}\u{754c}"]));
}

#[test]
fn split_agrees_with_std() {
    for line in ["get pods", " a  b ", "", "x\u{85}y", "-l app=web,tier!=db", "\"quoted text\""] {
        let expected: Vec<String> = line.split_whitespace().map(String::from).collect();
        assert_eq!(split_whitespace(line), expected);
    }
}

#[test]
fn quotes_are_not_interpreted() {
    assert_eq!(split_whitespace("-l \"a b\""), strings(&["-l", "\"a", "b\""]));
}

#[test]
fn whitespace_is_the_unicode_property() {
    for code in 0u32..0x3100 {
        if let Some(c) = char::from_u32(code) {
            assert_eq!(char_is_whitespace(c), c.is_whitespace(), "U+{:04X}", code);
        }
    }
}

#[test]
fn characters_come_out_in_order() {
    assert_eq!(to_chars("a\u{e9}z"), vec!['a', '\u{e9}', 'z']);
    assert_eq!(to_chars(""), Vec::<char>::new());
}

#[test]
fn text_equality_is_exact() {
    assert!(str_eq("pods", "pods"));
    assert!(str_eq("", ""));
    assert!(!str_eq("pods", "Pods"));
    assert!(!str_eq("pods", "pod"));
    assert!(!str_eq("pod", "pods"));
}

#[test]
fn case_is_ignored_for_ascii_letters_only() {
    assert!(str_eq_ignore_ascii_case("Pod", "pod"));
    assert!(str_eq_ignore_ascii_case("DEPLOYMENTS", "deployments"));
    assert!(str_eq_ignore_ascii_case("", ""));
    assert!(!str_eq_ignore_ascii_case("pod", "pods"));
    assert!(!str_eq_ignore_ascii_case("[", "{"));
    assert!(!str_eq_ignore_ascii_case("@", "`"));
    assert!(!str_eq_ignore_ascii_case("\u{c9}", "\u{e9}"));
    assert!(str_eq_ignore_ascii_case("caf\u{e9}", "CAF\u{e9}"));
}

#[test]
fn case_folding_agrees_with_std() {
    let samples = ["", "a", "A", "Z", "z", "[", "{", "Pods", "pODS", "pod", "\u{e9}", "\u{c9}"];
    for a in samples {
        for b in samples {
            assert_eq!(str_eq_ignore_ascii_case(a, b), a.eq_ignore_ascii_case(b), "{a:?} {b:?}");
        }
    }
}

#[test]
fn order_is_lexicographic() {
    assert!(str_lex_lt("", "apps"));
    assert!(str_lex_lt("apps", "batch"));
    assert!(str_lex_lt("app", "apps"));
    assert!(!str_lex_lt("apps", "app"));
    assert!(!str_lex_lt("apps", "apps"));
    assert!(!str_lex_lt("", ""));
    assert!(str_lex_lt("Z", "a"));
}

#[test]
fn order_agrees_with_std() {
    let samples = ["", "a", "b", "ab", "apps", "batch", "B", "\u{e9}", "z", "\u{10348}", "\u{ffff}"];
    for a in samples {
        for b in samples {
            assert_eq!(str_lex_lt(a, b), a < b, "{a:?} {b:?}");
        }
    }
}

#[test]
fn numerals_are_decimal() {
    assert_eq!(decimal_text(0), "0");
    assert_eq!(decimal_text(7), "7");
    assert_eq!(decimal_text(10), "10");
    assert_eq!(decimal_text(4096), "4096");
    assert_eq!(decimal_text(1234567890), "1234567890");
    assert_eq!(decimal_text(u64::MAX), "18446744073709551615");
}

#[test]
fn lines_are_joined_by_line_feeds() {
    assert_eq!(join_lines(&strings(&[])), "");
    assert_eq!(join_lines(&strings(&["one"])), "one");
    assert_eq!(join_lines(&strings(&["one", "two", "three"])), "one\ntwo\nthree");
    assert_eq!(join_lines(&strings(&["", ""])), "\n");
}
