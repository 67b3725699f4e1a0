use db_clone::text::{
    char_is_whitespace, from_chars, glue, glue3, has_at, has_char, has_last, has_prefix_str,
    has_within, has_within_str, lines_of, to_chars, trimmed,
};

fn chars(s: &str) -> Vec<char> {
    s.chars().collect()
}

fn text(v: &Vec<char>) -> String {
    v.iter().collect()
}

fn lines(s: &str) -> Vec<String> {
    lines_of(&chars(s)).iter().map(text).collect()
}

#[test]
fn chars_and_strings_convert_both_ways() {
    assert_eq!(to_chars("a\u{e9}\u{1F600}z"), vec!['a', '\u{e9}', '\u{1F600}', 'z']);
    assert_eq!(to_chars(""), Vec::<char>::new());
    assert_eq!(from_chars(&vec!['p', 'g', '_', '\u{e9}']), "pg_\u{e9}");
    assert_eq!(from_chars(&Vec::new()), "");
    let s = "SELECT 1;\n-- \u{3000} done";
    assert_eq!(from_chars(&to_chars(s)), s);
}

#[test]
fn whitespace_is_what_the_standard_library_calls_whitespace() {
    let mut c: u32 = 0;
    while c <= 0x10FFFF {
        if let Some(ch) = char::from_u32(c) {
            assert_eq!(char_is_whitespace(ch), ch.is_whitespace(), "code point {:#x}", c);
        }
        c += 1;
    }
}

#[test]
fn trimmed_removes_whitespace_at_both_ends_only() {
    assert_eq!(text(&trimmed(&chars("  a b \t\r\n"))), "a b");
    assert_eq!(text(&trimmed(&chars("\u{a0}\u{2003}x\u{3000}"))), "x");
    assert_eq!(text(&trimmed(&chars("   "))), "");
    assert_eq!(text(&trimmed(&chars(""))), "");
    assert_eq!(text(&trimmed(&chars("x"))), "x");
    for s in ["  COMMENT ON x;  ", "\t\n", "a", " \u{85}b\u{1680} ", "\u{200b} z"] {
        assert_eq!(text(&trimmed(&chars(s))), s.trim());
    }
}

#[test]
fn search_finds_prefixes_and_occurrences() {
    let s = chars("ALTER TABLE t ADD CONSTRAINT c");
    assert!(has_prefix_str(&s, ""));
    assert!(!has_prefix_str(&s, "LTER"));
    assert!(!has_prefix_str(&chars("AL"), "ALTER"));
    assert!(has_prefix_str(&s, "ALTER TABLE"));
    assert!(!has_prefix_str(&s, "ALTER TABLES"));
    assert!(!has_prefix_str(&chars("CREATE"), "CREATE INDEX"));
    assert!(has_within(&s, &chars("ADD CONSTRAINT")));
    assert!(has_within(&s, &chars("c")));
    assert!(has_within(&s, &chars("")));
    assert!(!has_within(&s, &chars("ADD  CONSTRAINT")));
    assert!(!has_within(&chars("ab"), &chars("abc")));
    assert!(has_within_str(&chars("SELECT setval('s', 1);"), "setval("));
    assert!(!has_within_str(&chars("SELECT setval ('s', 1);"), "setval("));
    assert!(has_at(&s, &chars("TABLE"), 6));
    assert!(!has_at(&s, &chars("TABLE"), 5));
    assert!(!has_at(&s, &chars("c"), 100));
    assert!(has_last(&chars("x;"), ';'));
    assert!(!has_last(&chars("x; "), ';'));
    assert!(!has_last(&chars(""), ';'));
    assert!(has_char(&chars("f(x"), '('));
    assert!(!has_char(&chars("fx"), '('));
}

#[test]
fn lines_end_at_line_feeds_and_lose_one_carriage_return() {
    assert_eq!(lines(""), Vec::<String>::new());
    assert_eq!(lines("\n"), vec![""]);
    assert_eq!(lines("a"), vec!["a"]);
    assert_eq!(lines("a\n"), vec!["a"]);
    assert_eq!(lines("a\nb"), vec!["a", "b"]);
    assert_eq!(lines("a\n\nb\n"), vec!["a", "", "b"]);
    assert_eq!(lines("a\r\nb\r\n"), vec!["a", "b"]);
    assert_eq!(lines("a\r\r\nb"), vec!["a\r", "b"]);
    assert_eq!(lines("a\rb\n"), vec!["a\rb"]);
    assert_eq!(lines("a\r"), vec!["a\r"]);
}

#[test]
fn lines_are_the_lines_of_the_standard_library() {
    for s in [
        "",
        "\n",
        "\r\n",
        "\r",
        "one",
        "one\ntwo",
        "one\r\ntwo\r\n",
        "one\r\r\n",
        "\n\n\n",
        "a\rb\r\n\rc",
        "tail\r",
        "CREATE TABLE t (\n  id int\n);\n",
    ] {
        let expected: Vec<String> = s.lines().map(|l| l.to_string()).collect();
        assert_eq!(lines(s), expected, "input {:?}", s);
    }
}

#[test]
fn glue_appends() {
    assert_eq!(glue("ab", "cd"), "abcd");
    assert_eq!(glue("", ""), "");
    assert_eq!(glue3("a", "b", "c"), "abc");
}
