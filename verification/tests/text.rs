use chatwoot_bridge::text::{
    comes_before, contains, eq_ignore_case, i64_text, join, lower_ascii, parse_i64, parse_u32,
    parse_u64, parse_u8, parse_usize, replace, split_char, split_text, split_words, take_chars,
    trim, trim_end_char,
};

#[test]
fn texts_are_trimmed_and_cut() {
    assert_eq!(trim(" \t a b \n"), "a b");
    assert_eq!(trim("\u{3000}x\u{a0}"), "x");
    assert_eq!(trim_end_char("a//", '/'), "a");
    assert_eq!(split_char("a,b,,", ','), vec!["a", "b", "", ""]);
    assert_eq!(split_text("a::b::", "::"), vec!["a", "b", ""]);
    assert_eq!(split_words("  a\tb\n c "), vec!["a", "b", "c"]);
    assert_eq!(join(&vec!["a".to_string(), "b".to_string()], ", "), "a, b");
    assert_eq!(take_chars("ação", 3), "açã");
    assert_eq!(replace("aaa", "aa", "b"), "ba");
}

#[test]
fn texts_are_compared() {
    assert!(eq_ignore_case("AbC", "aBc"));
    assert!(!eq_ignore_case("É", "é"));
    assert_eq!(lower_ascii("ÉA"), "Éa");
    assert!(contains("abc", "bc") && contains("abc", "") && !contains("abc", "d"));
    assert!(comes_before("a", "b") && comes_before("", "a") && !comes_before("b", "a"));
}

#[test]
fn numbers_are_read_and_written() {
    for n in [0i64, 7, -7, i64::MAX, i64::MIN] {
        assert_eq!(i64_text(n), n.to_string());
        assert_eq!(parse_i64(&i64_text(n)), Some(n));
    }
    for s in ["", "+", "-", "+5", "-0", "007", " 1", "1 ", "9223372036854775808", "1_0"] {
        assert_eq!(parse_i64(s), s.parse::<i64>().ok());
        assert_eq!(parse_u64(s), s.parse::<u64>().ok());
        assert_eq!(parse_u32(s), s.parse::<u32>().ok());
        assert_eq!(parse_u8(s), s.parse::<u8>().ok());
        assert_eq!(parse_usize(s), s.parse::<usize>().ok());
    }
}
