use zundux_tts::text::{
    chars_of, contains_chars, first_word_chars, i32_to_string, join_strings, lines_of,
    parse_u32_chars, remove_all_chars, str_contains, str_ends_with, str_eq, str_lex_lt,
    strip_all_prefix_chars, take_chars, trim_char_chars, trim_chars, u32_to_string,
};

fn chars(s: &str) -> Vec<char> {
    s.chars().collect()
}

#[test]
fn cutting_and_trimming() {
    assert_eq!(take_chars("ずんだもん", 3), "ずんだ");
    assert_eq!(take_chars("ab", 3), "ab");
    let once = take_chars("abcdef", 4);
    assert_eq!(take_chars(&once, 4), once);
    assert_eq!(trim_chars(&chars("\u{3000} a b \n")), chars("a b"));
    assert_eq!(trim_char_chars(&chars("\"name\""), '"'), chars("name"));
    assert_eq!(strip_all_prefix_chars(&chars("--x"), &chars("-")), chars("x"));
}

#[test]
fn searching() {
    assert!(str_contains("module-loopback sink=ZunduxMic", "ZunduxMic"));
    assert!(!str_contains("abc", "abd"));
    assert!(contains_chars(&chars("abc"), &chars("")));
    assert!(str_ends_with("api_v2.py", ".py"));
    assert!(!str_ends_with("py", ".py"));
    assert!(str_eq("http", "http"));
    assert!(!str_eq("https", "http"));
    assert_eq!(chars_of("あい"), vec!['あ', 'い']);
}

#[test]
fn lines_and_words() {
    let ls = lines_of(&chars("a\r\nb\n\nc\n"));
    assert_eq!(ls, vec![chars("a"), chars("b"), chars(""), chars("c")]);
    assert_eq!(first_word_chars(&chars("  12\tmodule")), Some(chars("12")));
    assert_eq!(first_word_chars(&chars("   ")), None);
    assert_eq!(remove_all_chars(&chars("abab-ab"), &chars("ab")), chars("-"));
}

#[test]
fn numbers_round_trip() {
    for n in [0u32, 7, 10, 4096, u32::MAX] {
        let text = u32_to_string(n);
        assert_eq!(text, n.to_string());
        assert_eq!(parse_u32_chars(&chars(&text)), Some(n));
    }
    assert_eq!(parse_u32_chars(&chars("+5")), Some(5));
    assert_eq!(parse_u32_chars(&chars("4294967296")), None);
    assert_eq!(parse_u32_chars(&chars("1a")), None);
    assert_eq!(i32_to_string(-42), "-42");
    assert_eq!(i32_to_string(i32::MIN), i32::MIN.to_string());
}

#[test]
fn ordering_and_joining() {
    assert!(str_lex_lt("a", "b"));
    assert!(str_lex_lt("a", "ab"));
    assert!(!str_lex_lt("ab", "ab"));
    assert!(str_lex_lt("Z", "a"));
    assert_eq!(join_strings(&vec!["a".to_string(), "b".to_string()], ","), "a,b");
    assert_eq!(join_strings(&Vec::new(), ","), "");
}
