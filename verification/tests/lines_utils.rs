use bulloak::lines::line_at;
use bulloak::utils::{repeat_str, usize_to_string};

#[test]
fn line_at_splits_on_line_feeds() {
    let text = "hello\nworld\n";
    assert_eq!(line_at(text, 0), Some("hello"));
    assert_eq!(line_at(text, 1), Some("world"));
    assert_eq!(line_at(text, 2), None);
}

#[test]
fn line_at_strips_carriage_return_before_line_feed() {
    let text = "one\r\ntwo\r";
    assert_eq!(line_at(text, 0), Some("one"));
    assert_eq!(line_at(text, 1), Some("two\r"));
    assert_eq!(line_at(text, 2), None);
}

#[test]
fn line_at_on_empty_text() {
    assert_eq!(line_at("", 0), None);
}

#[test]
fn line_at_keeps_last_line_without_line_feed() {
    let text = "a\nb";
    assert_eq!(line_at(text, 1), Some("b"));
}

#[test]
fn line_at_agrees_with_std_lines() {
    let texts = ["", "\n", "a", "a\n", "a\nb", "a\r\nb\r\n", "\n\n", "ab\ncd\nef"];
    for text in texts {
        for idx in 0..4 {
            assert_eq!(line_at(text, idx), text.lines().nth(idx), "{text:?} {idx}");
        }
    }
}

#[test]
fn repeat_str_repeats() {
    assert_eq!(repeat_str("ab", 3), "ababab");
    assert_eq!(repeat_str("x", 0), "");
    assert_eq!(repeat_str("•", 2), "••");
}

#[test]
fn usize_to_string_renders_decimal() {
    assert_eq!(usize_to_string(0), "0");
    assert_eq!(usize_to_string(9), "9");
    assert_eq!(usize_to_string(10), "10");
    assert_eq!(usize_to_string(907), "907");
}
