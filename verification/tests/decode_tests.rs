//! Decoding failures through the real JSON parser, and what they classify as.

use std::collections::HashMap;

use serde_json_pretty_error::{from_slice, from_str, ErrorKind, Styling};

#[test]
#[should_panic = "invalid type: map, expected i32 at "]
fn from_str_wrong_type() {
    let s = "{\n            \"hello\": {}\n        }";
    let _: HashMap<String, i32> = from_str(s).unwrap_or_else(|err| {
        panic!("{}", err.render(Styling::Plain));
    });
}

#[test]
#[should_panic = "EOF while parsing a value at "]
fn from_str_empty() {
    let s = "";
    let _: HashMap<String, i32> = from_str(s).unwrap_or_else(|err| {
        panic!("{}", err.render(Styling::Plain));
    });
}

#[test]
#[should_panic = "EOF while parsing a value at "]
fn from_str_space() {
    let s = " ";
    let _: HashMap<String, i32> = from_str(s).unwrap_or_else(|err| {
        panic!("{}", err.render(Styling::Plain));
    });
}

#[test]
#[should_panic = "EOF while parsing a value at "]
fn from_str_line() {
    let s = "\n            ";
    let _: HashMap<String, i32> = from_str(s).unwrap_or_else(|err| {
        panic!("{}", err.render(Styling::Plain));
    });
}

#[test]
#[should_panic = "EOF while parsing an object at "]
fn from_str_abrupt() {
    let s = "{";
    let _: HashMap<String, i32> = from_str(s).unwrap_or_else(|err| {
        panic!("{}", err.render(Styling::Plain));
    });
}

#[test]
#[should_panic = "invalid type: map, expected i32 at "]
fn from_slice_wrong_type() {
    let s = "{\n            \"hello\": {}\n        }";
    let _: HashMap<String, i32> = from_slice(s.as_bytes()).unwrap_or_else(|err| {
        panic!("{}", err.render(Styling::Plain));
    });
}

#[test]
#[should_panic = "EOF while parsing a value at "]
fn from_slice_empty() {
    let s = "";
    let _: HashMap<String, i32> = from_slice(s.as_bytes()).unwrap_or_else(|err| {
        panic!("{}", err.render(Styling::Plain));
    });
}

#[test]
#[should_panic = "EOF while parsing a value at "]
fn from_slice_space() {
    let s = " ";
    let _: HashMap<String, i32> = from_slice(s.as_bytes()).unwrap_or_else(|err| {
        panic!("{}", err.render(Styling::Plain));
    });
}

#[test]
#[should_panic = "EOF while parsing a value at "]
fn from_slice_line() {
    let s = "\n            ";
    let _: HashMap<String, i32> = from_slice(s.as_bytes()).unwrap_or_else(|err| {
        panic!("{}", err.render(Styling::Plain));
    });
}

#[test]
#[should_panic = "EOF while parsing an object at "]
fn from_slice_abrupt() {
    let s = "{";
    let _: HashMap<String, i32> = from_slice(s.as_bytes()).unwrap_or_else(|err| {
        panic!("{}", err.render(Styling::Plain));
    });
}

#[test]
fn wrong_shape_is_classified_with_position() {
    let s = "{\n  \"hello\": {}\n}";
    let err = from_str::<HashMap<String, i32>>(s).unwrap_err();
    assert_eq!(err.kind(), ErrorKind::DataShape);
    assert_eq!(err.line(), 2);
    assert_eq!(err.column(), 11);
    assert!(err.message().contains("invalid type: map, expected i32"));
}

#[test]
fn empty_source_is_eof_while_parsing_a_value() {
    let err = from_str::<HashMap<String, i32>>("").unwrap_err();
    assert_eq!(err.kind(), ErrorKind::Eof);
    assert!(err.message().contains("while parsing a value"));
}

#[test]
fn truncated_object_is_eof_while_parsing_an_object() {
    let err = from_str::<HashMap<String, i32>>("{").unwrap_err();
    assert_eq!(err.kind(), ErrorKind::Eof);
    assert!(err.message().contains("while parsing an object"));
}

#[test]
fn malformed_token_is_syntax() {
    let err = from_str::<HashMap<String, i32>>("{x}").unwrap_err();
    assert_eq!(err.kind(), ErrorKind::Syntax);
    assert_eq!(err.line(), 1);
}

#[test]
fn successful_decode_returns_the_value() {
    let v: HashMap<String, i32> = from_str("{\"hello\": 3}").unwrap();
    assert_eq!(v.get("hello"), Some(&3));
}

#[test]
fn from_slice_keeps_the_bytes_for_the_diagnostic() {
    let s = "{\n  \"hello\": {}\n}";
    let err = from_slice::<HashMap<String, i32>>(s.as_bytes()).unwrap_err();
    let rendered = err.render(Styling::Plain);
    assert!(rendered.contains("2 |   \"hello\": {}\n"));
}
