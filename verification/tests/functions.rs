use template_builder::template_function::{
    fill_width, is_not_empty, signature_timestamp, Signature, SignatureFunction, StringFunction,
    StringListFunction, Timestamp, TimestampRange, TimestampRangeFunction,
};
use template_builder::text_util::{contains, first_line, lines, split_email, words};

fn signature(email: &str) -> Signature {
    Signature {
        name: "Test User".to_owned(),
        email: email.to_owned(),
        timestamp: Timestamp { millis_since_epoch: 1_000, tz_offset_minutes: 60 },
    }
}

#[test]
fn lines_end_with_line_feeds() {
    assert_eq!(lines(""), Vec::<String>::new());
    assert_eq!(lines("a"), vec!["a"]);
    assert_eq!(lines("a\nb"), vec!["a", "b"]);
    assert_eq!(lines("a\nb\n"), vec!["a", "b"]);
    assert_eq!(lines("a\n\nb\n\n"), vec!["a", "", "b", ""]);
    assert_eq!(lines("\n"), vec![""]);
}

#[test]
fn carriage_returns_before_line_feeds_are_dropped() {
    assert_eq!(lines("a\r\nb\r\n"), vec!["a", "b"]);
    assert_eq!(lines("a\rb"), vec!["a\rb"]);
    assert_eq!(lines("a\r\r\n"), vec!["a\r"]);
    assert_eq!(lines("a\r"), vec!["a\r"]);
}

#[test]
fn lines_agree_with_std() {
    let texts =
        ["", "a", "\n", "\r\n", "a\nb", "a\r\nb\n", "\n\n", "x\ry\nz\r", "\u{e9}\n\u{4e2d}\r\n"];
    for s in texts {
        assert_eq!(lines(s), s.lines().map(|l| l.to_owned()).collect::<Vec<_>>());
        assert_eq!(first_line(s), s.lines().next().unwrap_or_default());
    }
}

#[test]
fn first_line_of_text() {
    assert_eq!(first_line(""), "");
    assert_eq!(first_line("\nb"), "");
    assert_eq!(first_line("a\r\nb"), "a");
    assert_eq!(first_line("only"), "only");
    assert_eq!(StringFunction::FirstLine.call("a\nb"), "a");
}

#[test]
fn letter_case() {
    assert_eq!(StringFunction::Upper.call("stra\u{df}e \u{e9}"), "STRASSE \u{c9}");
    assert_eq!(StringFunction::Lower.call("ABC \u{c9}"), "abc \u{e9}");
}

#[test]
fn words_are_set_apart_by_white_space() {
    assert_eq!(words(""), Vec::<String>::new());
    assert_eq!(words(" \t\n"), Vec::<String>::new());
    assert_eq!(words("a b"), vec!["a", "b"]);
    assert_eq!(words("  a\u{3000}bc\n d "), vec!["a", "bc", "d"]);
    assert_eq!(StringListFunction::Words.call("x y"), vec!["x", "y"]);
    assert_eq!(StringListFunction::Lines.call("x y\nz"), vec!["x y", "z"]);
}

#[test]
fn words_agree_with_std() {
    for s in ["", " ", "a", " a", "a ", "a  b\tc", "\u{a0}x\u{2003}y\u{200b}z"] {
        let expected: Vec<String> = s.split_whitespace().map(|w| w.to_owned()).collect();
        assert_eq!(words(s), expected);
    }
}

#[test]
fn white_space_characters() {
    let listed = |n: u32| {
        matches!(n, 0x9..=0xd | 0x20 | 0x85 | 0xa0 | 0x1680 | 0x2000..=0x200a | 0x2028..=0x2029)
            || matches!(n, 0x202f | 0x205f | 0x3000)
    };
    for c in '\0'..=char::MAX {
        let expected = if listed(c as u32) { 2 } else { 1 };
        assert_eq!(words(&format!("a{c}b")).len(), expected, "{c:?}");
    }
}

#[test]
fn white_space_sets_words_apart() {
    for (before, after) in [("", ""), ("a", "b"), (" a b", "c"), ("a ", " b"), ("ab", "")] {
        let mut expected = words(before);
        expected.extend(words(after));
        assert_eq!(words(&format!("{before} {after}")), expected);
        assert_eq!(words(&format!("{before}\n{after}")), expected);
    }
}

#[test]
fn first_line_is_a_line_feed_free_start() {
    for s in ["", "a", "\n", "\r\n", "a\nb", "a\r\nb", "\r", "a\r\r\nb"] {
        let first = first_line(s);
        assert!(s.starts_with(&first));
        assert!(!first.contains('\n'));
        assert_eq!(first, lines(s).first().cloned().unwrap_or_default());
    }
}

#[test]
fn containment() {
    assert!(contains("abc", ""));
    assert!(contains("abc", "bc"));
    assert!(contains("", ""));
    assert!(!contains("abc", "ac"));
    assert!(!contains("", "a"));
    assert!(contains("na\u{ef}ve", "\u{ef}v"));
}

#[test]
fn emptiness() {
    assert!(!is_not_empty(""));
    assert!(is_not_empty(" "));
}

#[test]
fn email_parts() {
    assert_eq!(
        split_email("user@example.com"),
        ("user".to_owned(), Some("example.com".to_owned()))
    );
    assert_eq!(split_email("user"), ("user".to_owned(), None));
    assert_eq!(split_email("a@b@c"), ("a".to_owned(), Some("b@c".to_owned())));
    assert_eq!(split_email("@"), (String::new(), Some(String::new())));
    assert_eq!(split_email(""), (String::new(), None));
}

#[test]
fn signature_functions() {
    assert_eq!(SignatureFunction::Name.call(signature("u@x")), "Test User");
    assert_eq!(SignatureFunction::Email.call(signature("u@x")), "u@x");
    assert_eq!(SignatureFunction::Username.call(signature("u@x")), "u");
    assert_eq!(SignatureFunction::Username.call(signature("nobody")), "nobody");
    assert_eq!(
        signature_timestamp(&signature("u@x")),
        Timestamp { millis_since_epoch: 1_000, tz_offset_minutes: 60 }
    );
}

#[test]
fn timestamp_range_functions() {
    let start = Timestamp { millis_since_epoch: 1, tz_offset_minutes: 0 };
    let end = Timestamp { millis_since_epoch: 2, tz_offset_minutes: 0 };
    let range = TimestampRange { start, end };
    assert_eq!(TimestampRangeFunction::Start.call(range), start);
    assert_eq!(TimestampRangeFunction::End.call(range), end);
}

#[test]
fn widths() {
    assert_eq!(fill_width(0), 0);
    assert_eq!(fill_width(80), 80);
    assert_eq!(fill_width(-1), 0);
    assert_eq!(fill_width(i64::MIN), 0);
}
