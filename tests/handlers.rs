use std::sync::Arc;

use codecs::{
    backslashreplace_errors, ignore_errors, replace_errors, strict_errors,
    xmlcharrefreplace_errors, ExceptionKind, PyError, PyException, PyObject, PyObjectRef,
};

fn unicode_error(kind: ExceptionKind, object: PyObject, start: i64, end: i64) -> PyObjectRef {
    Arc::new(PyObject::Exception(PyException {
        kind,
        start: Arc::new(PyObject::Int(start)),
        end: Arc::new(PyObject::Int(end)),
        object: Arc::new(object),
    }))
}

fn text(s: &str) -> PyObject {
    PyObject::Str(s.to_string())
}

fn type_error_message(r: Result<(String, usize), PyError>) -> String {
    match r {
        Err(PyError::TypeError(m)) => m,
        other => panic!("expected a type error, got {:?}", other),
    }
}

#[test]
fn ignore_drops_decode_span() {
    let err = unicode_error(ExceptionKind::UnicodeDecodeError, PyObject::Bytes(vec![0; 6]), 2, 5);
    assert_eq!(ignore_errors(&err).unwrap(), (String::new(), 5));
}

#[test]
fn ignore_drops_encode_and_translate_spans() {
    let e = unicode_error(ExceptionKind::UnicodeEncodeError, text("abc"), 0, 2);
    assert_eq!(ignore_errors(&e).unwrap(), (String::new(), 2));
    let t = unicode_error(ExceptionKind::UnicodeTranslateError, text("abc"), 1, 3);
    assert_eq!(ignore_errors(&t).unwrap(), (String::new(), 3));
}

#[test]
fn ignore_rejects_other_values() {
    let v = Arc::new(PyObject::Int(3));
    assert_eq!(
        type_error_message(ignore_errors(&v)),
        "don't know how to handle int in error callback"
    );
}

#[test]
fn replace_encode_uses_question_marks() {
    let err = unicode_error(ExceptionKind::UnicodeEncodeError, text("abc"), 0, 3);
    assert_eq!(replace_errors(&err).unwrap(), ("???".to_string(), 3));
}

#[test]
fn replace_decode_uses_one_replacement_character() {
    let err = unicode_error(ExceptionKind::UnicodeDecodeError, PyObject::Bytes(vec![1, 2, 3, 4]), 1, 4);
    assert_eq!(replace_errors(&err).unwrap(), ("\u{FFFD}".to_string(), 4));
}

#[test]
fn replace_translate_repeats_replacement_character() {
    let err = unicode_error(ExceptionKind::UnicodeTranslateError, text("abcd"), 1, 3);
    assert_eq!(replace_errors(&err).unwrap(), ("\u{FFFD}\u{FFFD}".to_string(), 3));
}

#[test]
fn replace_inverted_span_is_empty() {
    let err = unicode_error(ExceptionKind::UnicodeEncodeError, text("abc"), 3, 1);
    assert_eq!(replace_errors(&err).unwrap(), (String::new(), 1));
}

#[test]
fn xmlcharrefreplace_encodes_decimal_reference() {
    let err = unicode_error(ExceptionKind::UnicodeEncodeError, text("é"), 0, 1);
    assert_eq!(xmlcharrefreplace_errors(&err).unwrap(), ("&#233;".to_string(), 1));
}

#[test]
fn xmlcharrefreplace_covers_span_only() {
    let err = unicode_error(ExceptionKind::UnicodeTranslateError, text("a€😀b"), 1, 3);
    assert_eq!(
        xmlcharrefreplace_errors(&err).unwrap(),
        ("&#8364;&#128512;".to_string(), 3)
    );
}

#[test]
fn xmlcharrefreplace_clamps_to_text() {
    let err = unicode_error(ExceptionKind::UnicodeEncodeError, text("ab"), 1, 9);
    assert_eq!(xmlcharrefreplace_errors(&err).unwrap(), ("&#98;".to_string(), 9));
    let past = unicode_error(ExceptionKind::UnicodeEncodeError, text("ab"), 5, 9);
    assert_eq!(xmlcharrefreplace_errors(&past).unwrap(), (String::new(), 9));
}

#[test]
fn xmlcharrefreplace_rejects_decode_errors() {
    let err = unicode_error(ExceptionKind::UnicodeDecodeError, PyObject::Bytes(vec![0xff]), 0, 1);
    assert_eq!(
        type_error_message(xmlcharrefreplace_errors(&err)),
        "don't know how to handle UnicodeDecodeError in error callback"
    );
}

#[test]
fn backslashreplace_escapes_bytes() {
    let err = unicode_error(ExceptionKind::UnicodeDecodeError, PyObject::Bytes(vec![0xff, 0xfe]), 0, 2);
    assert_eq!(backslashreplace_errors(&err).unwrap(), ("\\xff\\xfe".to_string(), 2));
}

#[test]
fn backslashreplace_escapes_characters_by_size() {
    let err = unicode_error(ExceptionKind::UnicodeEncodeError, text("\u{e9}\u{20ac}\u{1f600}"), 0, 3);
    assert_eq!(
        backslashreplace_errors(&err).unwrap(),
        ("\\xe9\\u20ac\\U0001f600".to_string(), 3)
    );
}

#[test]
fn backslashreplace_wrong_object_kind() {
    let err = unicode_error(ExceptionKind::UnicodeDecodeError, text("abc"), 0, 1);
    assert_eq!(
        type_error_message(backslashreplace_errors(&err)),
        "Expected type 'bytes', not 'str'"
    );
}

#[test]
fn backslashreplace_rejects_other_exceptions() {
    let err = unicode_error(ExceptionKind::Other("ValueError".to_string()), text("x"), 0, 1);
    assert_eq!(
        type_error_message(backslashreplace_errors(&err)),
        "don't know how to handle ValueError in error callback"
    );
}

#[test]
fn strict_reraises_the_error() {
    let err = unicode_error(ExceptionKind::UnicodeEncodeError, text("x"), 0, 1);
    match strict_errors(&err) {
        Err(PyError::Raised(e)) => assert!(Arc::ptr_eq(&e, &err)),
        other => panic!("unexpected {:?}", other),
    }
}

#[test]
fn strict_rejects_non_exceptions() {
    let v = Arc::new(text("x"));
    match strict_errors(&v) {
        Err(PyError::TypeError(m)) => assert_eq!(m, "codec must pass exception instance"),
        other => panic!("unexpected {:?}", other),
    }
}

#[test]
fn negative_range_is_an_overflow_error() {
    let err = unicode_error(ExceptionKind::UnicodeEncodeError, text("abc"), -1, 2);
    assert!(matches!(ignore_errors(&err), Err(PyError::OverflowError(_))));
}

#[test]
fn non_integer_range_is_a_type_error() {
    let err = Arc::new(PyObject::Exception(PyException {
        kind: ExceptionKind::UnicodeEncodeError,
        start: Arc::new(text("0")),
        end: Arc::new(PyObject::Int(1)),
        object: Arc::new(text("a")),
    }));
    assert_eq!(
        type_error_message(replace_errors(&err)),
        "'str' object cannot be interpreted as an integer"
    );
}
