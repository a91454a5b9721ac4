//! Text, errors and order.

use axvisor_control::report::Failure;
use axvisor_control::text;

#[test]
fn trimming_follows_unicode() {
    for sample in ["", " a b ", "\u{a0}\u{2003}x\u{85}\n", "\u{200b}x", "\u{1680}\u{3000}", "x\u{feff}"] {
        assert_eq!(text::trim(sample), sample.trim());
    }
    assert_eq!(text::trim_start_matches("//a/", '/'), "a/");
    assert_eq!(text::trim_end_matches("/a//", '/'), "/a");
    assert_eq!(text::trim_end_matches("///", '/'), "");
}

#[test]
fn splitting_keeps_empty_pieces() {
    for sample in ["", ":", "a", "a:b", "::a:"] {
        let pieces: Vec<String> = sample.split(':').map(|piece| piece.to_string()).collect();
        assert_eq!(text::split_at_char(sample, ':'), pieces);
    }
    assert_eq!(text::last_piece("/a/b", '/'), "b");
    assert_eq!(text::last_piece("ab", '/'), "ab");
    assert_eq!(text::last_piece("a/", '/'), "");
    assert_eq!(text::before_last("/a/b", '/'), Some("/a"));
    assert_eq!(text::before_last("ab", '/'), None);
}

#[test]
fn numbers_are_decimal() {
    for n in [0, 7, 10, 99, 100, 8080, u64::MAX] {
        assert_eq!(text::number(n), n.to_string());
    }
    assert_eq!(text::list_bytes(&[0, 255, 16]), "[0, 255, 16]");
    assert_eq!(text::list_bytes(&[]), "[]");
    assert_eq!(text::seconds_text(120), "120s");
    assert_eq!(text::seconds_text(0), "0ns");
    assert_eq!(text::optional_truth_text(Some(true)), "Some(true)");
    assert_eq!(text::optional_truth_text(None), "None");
}

#[test]
fn the_order_of_texts_is_that_of_strings() {
    let samples = ["", "a", "ab", "b", "A", "é", "z", "aa", "\u{10000}", "\u{ffff}"];
    for a in samples {
        for b in samples {
            assert_eq!(text::is_before(a, b), a < b);
            assert_eq!(text::same(a, b), a == b);
        }
    }
}

#[test]
fn joining_puts_the_separator_between() {
    let words = vec!["a".to_string(), "b".to_string(), "c".to_string()];
    assert_eq!(text::join(&words, ", "), "a, b, c");
    assert_eq!(text::join(&words[..1], ", "), "a");
    assert_eq!(text::join(&[], ", "), "");
}

#[test]
fn an_error_carries_its_contexts_outermost_first() {
    let failure = Failure::new("cause".to_string())
        .context("inner".to_string())
        .context("outer".to_string());
    assert_eq!(failure.contexts, vec!["outer".to_string(), "inner".to_string()]);
    assert_eq!(failure.cause, "cause");
    assert_eq!(failure.to_text(), "outer: inner: cause");
}
