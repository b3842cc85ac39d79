//! The rendered layout: gutter width, caret placement, styling, degradation.

use std::collections::HashMap;

use serde_json_pretty_error::{
    from_str_with_filename, ClassifiedError, Error, ErrorKind, SourceRecord, Styling,
};

fn positioned(
    src: &str,
    line: usize,
    column: usize,
    message: &str,
    filename: Option<&str>,
) -> Error {
    Error::new(
        SourceRecord::Retained(src.as_bytes().to_vec()),
        filename.map(|f| f.to_string()),
        ClassifiedError {
            kind: ErrorKind::Syntax,
            line,
            column,
            message: message.to_string(),
        },
    )
}

#[test]
fn single_digit_gutter_layout() {
    let e = positioned("hello world", 1, 5, "oops", None);
    let expected = "  |\n1 | hello world\n  |      ^ oops\n";
    assert_eq!(e.render(Styling::Plain), expected);
}

#[test]
fn two_digit_gutter_is_two_columns_wide_in_every_row() {
    let src = "a1\na2\na3\na4\na5\na6\na7\na8\na9\nline ten content";
    let e = positioned(src, 10, 3, "boom", None);
    let expected = "   |\n10 | line ten content\n   |    ^ boom\n";
    assert_eq!(e.render(Styling::Plain), expected);
}

#[test]
fn caret_stands_under_the_failing_column() {
    let e = positioned("abcdef", 1, 4, "bad", None);
    let rendered = e.render(Styling::Plain);
    let rows: Vec<&str> = rendered.split('\n').collect();
    let content_row = rows[1];
    let caret_row = rows[2];
    let content_start = content_row.find('|').unwrap() + 2;
    let caret_at = caret_row.find('^').unwrap();
    // the caret stands 4 characters into the content text
    assert_eq!(caret_at, content_start + 4);
    assert_eq!(content_row.as_bytes()[caret_at], b'e');
}

#[test]
fn caret_offset_does_not_move_when_styling_is_on() {
    let e = positioned("abcdef", 1, 4, "bad", None);
    let plain = e.render(Styling::Plain);
    let colored = e.render(Styling::Colored);
    let strip = |s: &str| {
        let mut out = String::new();
        let mut in_code = false;
        for c in s.chars() {
            if in_code {
                if c == 'm' {
                    in_code = false;
                }
            } else if c == '\u{1b}' {
                in_code = true;
            } else {
                out.push(c);
            }
        }
        out
    };
    assert_eq!(strip(&colored), plain);
}

#[test]
fn colored_render_wraps_markers_in_color_codes() {
    let e = positioned("hello world", 1, 5, "oops", None);
    let bar = "\u{1b}[34;1m|\u{1b}[0m";
    let expected = format!(
        "  {bar}\n1 {bar} hello world\n  {bar}      \u{1b}[31;1m^\u{1b}[0m \u{1b}[31;1moops\u{1b}[0m\n"
    );
    assert_eq!(e.render(Styling::Colored), expected);
}

#[test]
fn io_renders_exactly_one_line_of_message() {
    let e = Error::from_io_message("permission denied".to_string());
    let rendered = e.render(Styling::Plain);
    assert_eq!(rendered, "permission denied");
    assert!(!rendered.contains('\n'));
    assert!(!rendered.contains('|'));
    assert!(!rendered.contains('^'));
    assert!(!rendered.contains("-->"));
}

#[test]
fn header_row_names_the_file_and_the_position() {
    let src = "{\n  \"hello\": {}\n}";
    let err = from_str_with_filename::<HashMap<String, i32>>(src, "path/to/file.json".to_string())
        .unwrap_err();
    let rendered = err.render(Styling::Plain);
    let header = rendered.split('\n').next().unwrap();
    assert_eq!(header, "  --> path/to/file.json:2:11");
}

#[test]
fn wrong_shape_scenario_renders_content_and_caret() {
    let src = "{\n  \"hello\": {}\n}";
    let err = from_str_with_filename::<HashMap<String, i32>>(src, "path/to/file.json".to_string())
        .unwrap_err();
    assert_eq!(err.kind(), ErrorKind::DataShape);
    assert_eq!(err.line(), 2);
    let expected = "  --> path/to/file.json:2:11\n  |\n2 |   \"hello\": {}\n  |            ^ invalid type: map, expected i32 at line 2 column 11\n";
    assert_eq!(err.render(Styling::Plain), expected);
}

#[test]
fn invalid_encoding_is_replaced_not_fatal() {
    let src = vec![b'a', 0xFF, b'b'];
    let e = Error::new(
        SourceRecord::Retained(src),
        None,
        ClassifiedError {
            kind: ErrorKind::Syntax,
            line: 1,
            column: 1,
            message: "m".to_string(),
        },
    );
    let rendered = e.render(Styling::Plain);
    assert!(rendered.contains("1 | a\u{FFFD}b\n"));
}

#[test]
fn try_render_refuses_a_position_without_source() {
    let e = Error::new(
        SourceRecord::Placeholder,
        None,
        ClassifiedError {
            kind: ErrorKind::Syntax,
            line: 1,
            column: 1,
            message: "m".to_string(),
        },
    );
    assert!(e.try_render(Styling::Plain).is_none());
}

#[test]
fn try_render_refuses_a_line_beyond_the_source() {
    let e = positioned("one line", 2, 1, "m", None);
    assert!(e.try_render(Styling::Plain).is_none());
}

#[test]
fn try_render_accepts_a_well_formed_diagnostic() {
    let e = positioned("hello world", 1, 5, "oops", None);
    let rendered = e.try_render(Styling::Plain).unwrap();
    assert_eq!(rendered, "  |\n1 | hello world\n  |      ^ oops\n");
}

#[test]
fn downgrade_keeps_the_message_exactly() {
    let e = positioned("hello world", 1, 5, "oops at line 1 column 5", None);
    assert_eq!(e.into_message(), "oops at line 1 column 5");
}

#[test]
fn downgrade_is_idempotent_on_message_content() {
    let e = positioned("hello world", 1, 5, "oops", None);
    let msg = e.into_message();
    let rebuilt = Error::from_io_message(msg.clone());
    assert_eq!(rebuilt.kind(), ErrorKind::Io);
    assert!(rebuilt.filename().is_none());
    assert_eq!(rebuilt.into_message(), msg);
}

#[test]
fn empty_source_has_one_empty_line_record() {
    let e = positioned("", 1, 0, "EOF while parsing a value", None);
    let expected = "  |\n1 | \n  | ^ EOF while parsing a value\n";
    assert_eq!(e.render(Styling::Plain), expected);
}

#[test]
fn accessors_expose_the_classified_error() {
    let e = positioned("abc", 1, 2, "m", Some("f.json"));
    assert_eq!(e.kind(), ErrorKind::Syntax);
    assert_eq!(e.line(), 1);
    assert_eq!(e.column(), 2);
    assert_eq!(e.message().as_str(), "m");
    assert_eq!(e.filename().as_deref(), Some("f.json"));
    assert!(matches!(e.source(), SourceRecord::Retained(v) if v == b"abc"));
}

#[test]
fn trailing_line_break_opens_an_empty_record() {
    let e = positioned("a\n", 2, 0, "m", None);
    let expected = "  |\n2 | \n  | ^ m\n";
    assert_eq!(e.render(Styling::Plain), expected);
}

#[test]
fn header_gutter_widens_with_the_line_number() {
    let src = "a1\na2\na3\na4\na5\na6\na7\na8\na9\nten";
    let e = positioned(src, 10, 1, "m", Some("f.json"));
    let expected = "   --> f.json:10:1\n   |\n10 | ten\n   |  ^ m\n";
    assert_eq!(e.render(Styling::Plain), expected);
}
