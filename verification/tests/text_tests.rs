use wc_note::strings::{escape_angles_str, join_strings, parse_unsigned_str, push_decimal, starts_with, str_contains, trim, usize_to_string};
use wc_note::text_html::{
    pos_esc_angle, split_lines, text_angle_entity, text_contents_gt_lt_escape, text_in_html, text_spread_parts,
    text_whitespace_pre,
};

#[test]
fn decimal_writing() {
    assert_eq!(usize_to_string(0), "0");
    assert_eq!(usize_to_string(1203), "1203");
    let mut s = String::from("rev.");
    push_decimal(&mut s, 42);
    assert_eq!(s, "rev.42");
}

#[test]
fn join_with_separator() {
    let list = vec!["a".to_string(), "b".to_string(), "c".to_string()];
    assert_eq!(join_strings(&list, "\n"), "a\nb\nc");
    assert_eq!(join_strings(&vec![], ", "), "");
    assert_eq!(join_strings(&vec!["x".to_string()], ", "), "x");
}

#[test]
fn parse_unsigned_like_from_str() {
    assert_eq!(parse_unsigned_str("12", usize::MAX), Some(12));
    assert_eq!(parse_unsigned_str("+7", usize::MAX), Some(7));
    assert_eq!(parse_unsigned_str("007", usize::MAX), Some(7));
    assert_eq!(parse_unsigned_str("", usize::MAX), None);
    assert_eq!(parse_unsigned_str("+", usize::MAX), None);
    assert_eq!(parse_unsigned_str("1a", usize::MAX), None);
    assert_eq!(parse_unsigned_str("-1", usize::MAX), None);
    assert_eq!(parse_unsigned_str("255", 255), Some(255));
    assert_eq!(parse_unsigned_str("256", 255), None);
}

#[test]
fn contains_trim_starts_with() {
    assert!(str_contains("/a/b.html", ".htm"));
    assert!(!str_contains("/a/b.css", ".htm"));
    assert!(str_contains("abc", ""));
    assert_eq!(trim("  x y \t\n"), "x y");
    assert_eq!(trim("\u{3000}wide\u{3000}"), "wide");
    assert_eq!(trim("   "), "");
    assert!(starts_with("#top", "#"));
    assert!(!starts_with("top", "#"));
}

#[test]
fn angles_escaped() {
    assert_eq!(escape_angles_str("<a>b"), "\\<a\\>b");
    assert_eq!(text_contents_gt_lt_escape(b"<b>"), b"\\<b\\>".to_vec());
}

#[test]
fn split_lines_keeps_empty_lines() {
    assert_eq!(split_lines(b"a\n\nb"), vec![b"a".to_vec(), vec![], b"b".to_vec()]);
    assert_eq!(split_lines(b""), vec![Vec::<u8>::new()]);
    assert_eq!(split_lines(b"x\n"), vec![b"x".to_vec(), vec![]]);
}

#[test]
fn spread_into_paragraphs() {
    assert_eq!(text_spread_parts(b""), Vec::<u8>::new());
    assert_eq!(text_spread_parts(b"a\nb"), b"<p>a<br>b</p>".to_vec());
    assert_eq!(text_spread_parts(b"a\n\nb"), b"<p>a<br></p><p>b</p>".to_vec());
}

#[test]
fn escaped_angle_found() {
    assert_eq!(pos_esc_angle(b"x\\<y", 0), Some((1, &b"\\<"[..])));
    assert_eq!(pos_esc_angle(b"ab\\>", 1), Some((2, &b"\\>"[..])));
    // The backslash before the angle is itself escaped.
    assert_eq!(pos_esc_angle(b"\\\\<", 0), None);
    assert_eq!(pos_esc_angle(b"plain", 0), None);
}

#[test]
fn angle_entities() {
    assert_eq!(text_angle_entity(b"a\\<b\\>c"), b"a&lt;b&gt;c".to_vec());
    assert_eq!(text_angle_entity(b"no escapes"), b"no escapes".to_vec());
    assert_eq!(text_angle_entity(b""), Vec::<u8>::new());
}

#[test]
fn blanks_kept() {
    assert_eq!(
        text_whitespace_pre(b"a  b\tc d"),
        b"a<span style=\"white-space: pre\">  </span>b<span style=\"white-space: pre\">\t</span>c d".to_vec()
    );
}

#[test]
fn text_shown_in_html() {
    assert_eq!(text_in_html(b"1 \\< 2"), b"<p>1 &lt; 2</p>".to_vec());
    assert_eq!(text_in_html(b"a\nb"), b"<p>a<br>b</p>".to_vec());
    assert_eq!(text_in_html(b""), Vec::<u8>::new());
}

#[test]
fn escaped_backslash_then_escaped_angle() {
    // `\\<` shows a backslash and a real `<`; the `\<` after it is escaped.
    assert_eq!(text_angle_entity(b"\\\\<\\<"), b"\\\\<&lt;".to_vec());
    assert_eq!(text_angle_entity(b"a\\\\>b\\>c"), b"a\\\\>b&gt;c".to_vec());
}
