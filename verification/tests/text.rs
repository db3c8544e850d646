use libmcptool::text::{
    char_count, char_is_space, chars_of, decimal_string, has_prefix, same_text, skip_chars,
    split_once, split_whitespace, trim,
};

#[test]
fn whitespace_is_the_unicode_property() {
    let mut code: u32 = 0;
    while code <= 0x10FFFF {
        if let Some(c) = char::from_u32(code) {
            assert_eq!(char_is_space(c), c.is_whitespace(), "U+{:04X}", code);
        }
        code += 1;
    }
}

#[test]
fn chars_of_keeps_every_character() {
    assert_eq!(chars_of("héllo"), vec!['h', 'é', 'l', 'l', 'o']);
    assert_eq!(chars_of(""), Vec::<char>::new());
}

#[test]
fn char_count_counts_characters_not_bytes() {
    assert_eq!(char_count("héllo"), 5);
    assert_eq!(char_count(""), 0);
}

#[test]
fn trim_strips_both_ends() {
    assert_eq!(trim("  ping  "), "ping");
    assert_eq!(trim("\t calltool echo --json \r\n"), "calltool echo --json");
    assert_eq!(trim("a b"), "a b");
    assert_eq!(trim("x"), "x");
}

#[test]
fn trim_of_blank_is_empty() {
    assert_eq!(trim(""), "");
    assert_eq!(trim("   "), "");
    assert_eq!(trim("\u{2003}\u{00A0}\t"), "");
}

#[test]
fn trim_agrees_with_std() {
    let samples = [
        "",
        " ",
        "a",
        " a",
        "a ",
        "  a  b  ",
        "\u{3000}wide\u{3000}",
        "\u{200B}zero width is no space\u{200B}",
        "\n\nline\n",
        "é \u{1680} é",
    ];
    for s in samples {
        assert_eq!(trim(s), s.trim(), "{:?}", s);
    }
}

#[test]
fn split_whitespace_gives_the_words() {
    assert_eq!(split_whitespace("calltool echo --arg a=b"), vec!["calltool", "echo", "--arg", "a=b"]);
    assert_eq!(split_whitespace("  read-resource\t\tfile:///x  "), vec!["read-resource", "file:///x"]);
    assert_eq!(split_whitespace("one"), vec!["one"]);
}

#[test]
fn split_whitespace_of_blank_is_empty() {
    assert_eq!(split_whitespace(""), Vec::<String>::new());
    assert_eq!(split_whitespace(" \t \n"), Vec::<String>::new());
}

#[test]
fn split_whitespace_agrees_with_std() {
    let samples = [
        "",
        "a",
        " a b ",
        "a\u{00A0}b\u{2028}c",
        "tab\tseparated\twords",
        "  leading and trailing  ",
        "ünï cödé  wörds",
    ];
    for s in samples {
        let expected: Vec<String> = s.split_whitespace().map(|w| w.to_string()).collect();
        assert_eq!(split_whitespace(s), expected, "{:?}", s);
    }
}

#[test]
fn same_text_compares_characters() {
    assert!(same_text("quit", "quit"));
    assert!(!same_text("quit", "Quit"));
    assert!(!same_text("quit", "quit "));
    assert!(same_text("", ""));
}

#[test]
fn has_prefix_checks_the_beginning() {
    assert!(has_prefix("resource://a", "resource://"));
    assert!(has_prefix("prompt://", "prompt://"));
    assert!(has_prefix("anything", ""));
    assert!(!has_prefix("prompt:/x", "prompt://"));
    assert!(!has_prefix("res", "resource://"));
    assert!(!has_prefix("xresource://", "resource://"));
}

#[test]
fn skip_chars_drops_the_front() {
    assert_eq!(skip_chars("prompt://greet", 9), "greet");
    assert_eq!(skip_chars("héllo", 2), "llo");
    assert_eq!(skip_chars("abc", 3), "");
    assert_eq!(skip_chars("abc", 0), "abc");
}

#[test]
fn split_once_splits_at_the_first_separator() {
    assert_eq!(split_once("a=b", '='), Some(("a".to_string(), "b".to_string())));
    assert_eq!(split_once("a=b=c", '='), Some(("a".to_string(), "b=c".to_string())));
    assert_eq!(split_once("=b", '='), Some(("".to_string(), "b".to_string())));
    assert_eq!(split_once("a=", '='), Some(("a".to_string(), "".to_string())));
    assert_eq!(split_once("=", '='), Some(("".to_string(), "".to_string())));
    assert_eq!(split_once("clé=valeur é", '='), Some(("clé".to_string(), "valeur é".to_string())));
}

#[test]
fn split_once_without_separator_is_none() {
    assert_eq!(split_once("ab", '='), None);
    assert_eq!(split_once("", '='), None);
}

#[test]
fn decimal_string_writes_integers() {
    assert_eq!(decimal_string(0), "0");
    assert_eq!(decimal_string(7), "7");
    assert_eq!(decimal_string(10), "10");
    assert_eq!(decimal_string(1234567890), "1234567890");
    assert_eq!(decimal_string(-1), "-1");
    assert_eq!(decimal_string(-305), "-305");
    assert_eq!(decimal_string(i64::MAX), "9223372036854775807");
    assert_eq!(decimal_string(i64::MIN), "-9223372036854775808");
}

#[test]
fn decimal_string_agrees_with_std() {
    let mut n: i64 = -100_000;
    while n <= 100_000 {
        assert_eq!(decimal_string(n), n.to_string());
        n += 37;
    }
}
