use groqqle::llm::fallback_summary;
use groqqle::text::{collapse_whitespace, decimal_string, trim_string};

fn collapsed(s: &str) -> String {
    collapse_whitespace(s).into_iter().collect()
}

#[test]
fn fallback_summary_joins_words_with_single_spaces() {
    assert_eq!(fallback_summary("  hello   world \n\t foo  ", 100), "hello world foo");
}

#[test]
fn fallback_summary_cuts_to_max_chars() {
    assert_eq!(fallback_summary("  hello   world ", 7), "hello w");
    assert_eq!(fallback_summary("hello world", 0), "");
    assert_eq!(fallback_summary("hello world", 11), "hello world");
}

#[test]
fn fallback_summary_counts_characters_not_bytes() {
    assert_eq!(fallback_summary("héllo wörld", 4), "héll");
    assert_eq!(fallback_summary("日本語 テキスト", 5), "日本語 テ");
}

#[test]
fn fallback_summary_treats_unicode_whitespace_as_separator() {
    assert_eq!(fallback_summary("a\u{3000}b\u{a0}\u{a0}c\u{2028}d\u{85}e", 100), "a b c d e");
    // U+200B ZERO WIDTH SPACE is not white space
    assert_eq!(fallback_summary("a\u{200b}b", 100), "a\u{200b}b");
}

#[test]
fn fallback_summary_of_blank_text_is_empty() {
    assert_eq!(fallback_summary("", 10), "");
    assert_eq!(fallback_summary(" \n\t\r ", 10), "");
}

#[test]
fn fallback_summary_matches_split_whitespace_join() {
    let samples = [
        "plain",
        "  lead and trail  ",
        "tabs\tand\nnew\r\nlines",
        "\u{2003}em\u{2003}space",
        "mixed \u{1680} ogham",
    ];
    for s in samples {
        for n in [0usize, 1, 3, 8, 1000] {
            let expected: String =
                s.split_whitespace().collect::<Vec<_>>().join(" ").chars().take(n).collect();
            assert_eq!(fallback_summary(s, n), expected, "input {:?} limit {}", s, n);
        }
    }
}

#[test]
fn shorter_summary_is_prefix_of_longer() {
    let text = " The quick  brown\tfox jumps ";
    let long = fallback_summary(text, 15);
    for m in 0..=15 {
        assert!(long.starts_with(&fallback_summary(text, m)));
    }
}

#[test]
fn summary_is_stable_unless_cut_after_space() {
    let text = "one  two   three";
    let once = fallback_summary(text, 100);
    assert_eq!(fallback_summary(&once, 100), once);
    let cut = fallback_summary(text, 8);
    assert_eq!(cut, "one two ");
    assert_eq!(fallback_summary(&cut, 8), "one two");
}

#[test]
fn collapse_is_idempotent() {
    let once = collapsed("  a \n\n b\t\tc  ");
    assert_eq!(once, "a b c");
    assert_eq!(collapsed(&once), once);
}

#[test]
fn trim_removes_unicode_whitespace_at_both_ends() {
    assert_eq!(trim_string("  key  "), "key");
    assert_eq!(trim_string("\u{3000}\tk e y\n"), "k e y");
    assert_eq!(trim_string("   "), "");
    assert_eq!(trim_string(""), "");
}

#[test]
fn decimal_string_matches_to_string() {
    for n in [0usize, 7, 10, 99, 100, 1024, 123456789, usize::MAX] {
        assert_eq!(decimal_string(n), n.to_string());
    }
}

#[test]
fn summary_spaces_are_single_and_not_leading() {
    for n in 0..30 {
        let s = fallback_summary("\n\n  alpha \t\t beta\u{2009}\u{2009}gamma   ", n);
        assert!(!s.starts_with(' '));
        assert!(!s.contains("  "));
        assert!(s.chars().all(|c| c == ' ' || !c.is_whitespace()));
    }
}
