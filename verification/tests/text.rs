use netpanel::escape::{mask_chars, unmask_chars};
use netpanel::text::{split_chars, split_lines, string_of, to_chars};

fn fields(text: &str, sep: char) -> Vec<String> {
    split_chars(&to_chars(text), sep).iter().map(|f| string_of(f)).collect()
}

fn lines(text: &str) -> Vec<String> {
    split_lines(&to_chars(text)).iter().map(|l| string_of(l)).collect()
}

#[test]
fn chars_and_back() {
    let text = "54 Mbit/s ▂▄▆_ é";
    let chars = to_chars(text);
    assert_eq!(chars, text.chars().collect::<Vec<char>>());
    assert_eq!(string_of(&chars), text);
    assert_eq!(to_chars(""), Vec::<char>::new());
    assert_eq!(string_of(&[]), "");
}

#[test]
fn split_keeps_empty_fields() {
    assert_eq!(fields("", ':'), vec![""]);
    assert_eq!(fields("a", ':'), vec!["a"]);
    assert_eq!(fields(":", ':'), vec!["", ""]);
    assert_eq!(fields("a:b", ':'), vec!["a", "b"]);
    assert_eq!(fields(":a::b:", ':'), vec!["", "a", "", "b", ""]);
    assert_eq!(fields("a;b:c", ';'), vec!["a", "b:c"]);
}

#[test]
fn split_agrees_with_std() {
    for text in ["", ":", "::", "a:b:c", "*:x::y", "é:▂:"] {
        let expected: Vec<String> = text.split(':').map(|f| f.to_string()).collect();
        assert_eq!(fields(text, ':'), expected, "{:?}", text);
    }
}

#[test]
fn lines_end_at_line_feeds() {
    assert_eq!(lines(""), Vec::<String>::new());
    assert_eq!(lines("a"), vec!["a"]);
    assert_eq!(lines("a\n"), vec!["a"]);
    assert_eq!(lines("a\nb"), vec!["a", "b"]);
    assert_eq!(lines("a\nb\n"), vec!["a", "b"]);
    assert_eq!(lines("\n"), vec![""]);
    assert_eq!(lines("\n\n"), vec!["", ""]);
    assert_eq!(lines("a\n\nb"), vec!["a", "", "b"]);
}

#[test]
fn carriage_return_before_line_feed_is_dropped() {
    assert_eq!(lines("a\r\nb\r\n"), vec!["a", "b"]);
    assert_eq!(lines("a\r\r\nb"), vec!["a\r", "b"]);
    assert_eq!(lines("a\rb\n"), vec!["a\rb"]);
    assert_eq!(lines("a\r"), vec!["a\r"]);
    assert_eq!(lines("\r\n"), vec![""]);
}

#[test]
fn lines_agree_with_std() {
    for text in ["", "\n", "a", "a\n", "a\r\n", "a\r", "a\n\r", "\r\n\r\n", "x\ny\r\nz", "\r"] {
        let expected: Vec<String> = text.lines().map(|l| l.to_string()).collect();
        assert_eq!(lines(text), expected, "{:?}", text);
    }
}

#[test]
fn masking_replaces_escaped_colons() {
    let masked = |text: &str| string_of(&mask_chars(&to_chars(text)));
    assert_eq!(masked(""), "");
    assert_eq!(masked("AA\\:BB"), "AA-BB");
    assert_eq!(masked("\\:"), "-");
    assert_eq!(masked("\\"), "\\");
    assert_eq!(masked("\\\\:"), "\\-");
    assert_eq!(masked("a:b\\:c:\\"), "a:b-c:\\");
    assert_eq!(masked("\\:\\:"), "--");
}

#[test]
fn masking_agrees_with_std() {
    for text in ["", "\\", ":", "\\:", "\\\\:", ":\\", "a\\:b:c\\:\\:d", "\\:\\"] {
        let masked = string_of(&mask_chars(&to_chars(text)));
        assert_eq!(masked, text.replace("\\:", "-"), "{:?}", text);
    }
}

#[test]
fn unmasking_restores_colons() {
    let unmasked = |text: &str| string_of(&unmask_chars(&to_chars(text)));
    assert_eq!(unmasked(""), "");
    assert_eq!(unmasked("AA-BB-CC"), "AA:BB:CC");
    assert_eq!(unmasked("-"), ":");
    assert_eq!(unmasked("a:b"), "a:b");
}
