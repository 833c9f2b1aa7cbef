//! The built-in error-recovery policies. Each takes the description of a
//! failed encode, decode or translate step and either fails or returns the
//! replacement text with the offset to resume at, which is always the end of
//! the faulty span.
use vstd::prelude::*;
use vstd::string::*;

use crate::object::{
    class_name, index_of_value, to_index, BuiltinHandler, ExceptionKind, PyError, PyException,
    PyObject, PyObjectRef,
};
use crate::text::{concat3, decimal, hex_fixed, push_char, push_decimal, push_hex, text};

verus! {

/// A failed decode step.
pub open spec fn is_decode_error(o: PyObject) -> bool {
    o matches PyObject::Exception(e) && e.kind is UnicodeDecodeError
}

/// A failed encode or translate step.
pub open spec fn is_encode_ish_error(o: PyObject) -> bool {
    o matches PyObject::Exception(e) && (e.kind is UnicodeEncodeError
        || e.kind is UnicodeTranslateError)
}

/// The faulty span `[start, end)` of an error, where both bounds are indices.
pub open spec fn error_range(o: PyObject) -> Option<(usize, usize)> {
    match o {
        PyObject::Exception(e) => match (index_of_value(*e.start), index_of_value(*e.end)) {
            (Some(s), Some(t)) => Some((s, t)),
            _ => None,
        },
        _ => None,
    }
}

/// The value that the error was raised over.
pub open spec fn error_object(o: PyObject) -> PyObject {
    match o {
        PyObject::Exception(e) => *e.object,
        _ => o,
    }
}

/// The message for a value that a handler does not know how to treat.
pub open spec fn bad_err_message(o: PyObject) -> Seq<char> {
    "don't know how to handle "@ + class_name(o) + " in error callback"@
}

/// The message for an error raised over a value of the wrong kind.
pub open spec fn wrong_object_message(expected: Seq<char>, o: PyObject) -> Seq<char> {
    "Expected type '"@ + expected + "', not '"@ + class_name(o) + "'"@
}

/// The width of `[start, end)`; an inverted span is empty.
pub open spec fn span_len(start: usize, end: usize) -> nat {
    if end > start {
        (end - start) as nat
    } else {
        0
    }
}

/// The items of `s` within `[start, end)`, cut at the end of `s`.
pub open spec fn span<T>(s: Seq<T>, start: usize, end: usize) -> Seq<T> {
    if start >= s.len() {
        Seq::empty()
    } else if start + span_len(start, end) <= s.len() {
        s.subrange(start as int, start + span_len(start, end))
    } else {
        s.subrange(start as int, s.len() as int)
    }
}

/// `n` copies of `c`.
pub open spec fn repeat(c: char, n: nat) -> Seq<char> {
    Seq::new(n, |i: int| c)
}

/// A numeric character reference `&#N;` for each character.
pub open spec fn xml_refs(s: Seq<char>) -> Seq<char>
    decreases s.len(),
{
    if s.len() == 0 {
        Seq::empty()
    } else {
        xml_refs(s.drop_last()) + seq!['&', '#'] + decimal(s.last() as nat) + seq![';']
    }
}

/// The escape of one character: `\xHH`, `\uHHHH` or `\UHHHHHHHH` by size.
pub open spec fn char_escape(c: char) -> Seq<char> {
    let v = c as nat;
    if v >= 0x10000 {
        seq!['\\', 'U'] + hex_fixed(v, 8)
    } else if v >= 0x100 {
        seq!['\\', 'u'] + hex_fixed(v, 4)
    } else {
        seq!['\\', 'x'] + hex_fixed(v, 2)
    }
}

/// The escapes of the characters of `s`, in order.
pub open spec fn char_escapes(s: Seq<char>) -> Seq<char>
    decreases s.len(),
{
    if s.len() == 0 {
        Seq::empty()
    } else {
        char_escapes(s.drop_last()) + char_escape(s.last())
    }
}

/// `\xHH` for each byte of `b`, in order.
pub open spec fn byte_escapes(b: Seq<u8>) -> Seq<char>
    decreases b.len(),
{
    if b.len() == 0 {
        Seq::empty()
    } else {
        byte_escapes(b.drop_last()) + seq!['\\', 'x'] + hex_fixed(b.last() as nat, 2)
    }
}

/// Reads the bounds of the faulty span of `e`.
pub fn extract_unicode_error_range(e: &PyException) -> (r: Result<(usize, usize), PyError>)
    ensures
        (index_of_value(*e.start), index_of_value(*e.end)) matches (Some(s), Some(t)) ==> r
            == Ok::<(usize, usize), PyError>((s, t)),
        index_of_value(*e.start) is None || index_of_value(*e.end) is None ==> r is Err,
{
    let start = to_index(&e.start)?;
    let end = to_index(&e.end)?;
    Ok((start, end))
}

pub fn is_decode_err(err: &PyObjectRef) -> (r: bool)
    ensures
        r == is_decode_error(**err),
{
    match &**err {
        PyObject::Exception(e) => match e.kind {
            ExceptionKind::UnicodeDecodeError => true,
            _ => false,
        },
        _ => false,
    }
}

pub fn is_encode_ish_err(err: &PyObjectRef) -> (r: bool)
    ensures
        r == is_encode_ish_error(**err),
{
    match &**err {
        PyObject::Exception(e) => match e.kind {
            ExceptionKind::UnicodeEncodeError | ExceptionKind::UnicodeTranslateError => true,
            _ => false,
        },
        _ => false,
    }
}

/// The type error for a value that a handler does not know how to treat.
pub fn bad_err_type(err: &PyObjectRef) -> (r: PyError)
    ensures
        r matches PyError::TypeError(m) && m@ == bad_err_message(**err),
{
    let name = err.class_name();
    PyError::TypeError(concat3("don't know how to handle ", name.as_str(), " in error callback"))
}

fn wrong_object(expected: &str, o: &PyObjectRef) -> (r: PyError)
    ensures
        r matches PyError::TypeError(m) && m@ == wrong_object_message(expected@, **o),
{
    let mut m = text("Expected type '");
    m.append(expected);
    m.append("', not '");
    m.append(o.class_name().as_str());
    m.append("'");
    PyError::TypeError(m)
}

/// The bounds that `span` takes, as indices into a sequence of length `n`.
fn span_bounds(n: usize, start: usize, end: usize) -> (r: (usize, usize))
    ensures
        r.0 <= r.1 <= n,
        forall|s: Seq<char>| s.len() == n ==> #[trigger] span(s, start, end) == s.subrange(
            r.0 as int,
            r.1 as int,
        ),
        forall|b: Seq<u8>| b.len() == n ==> #[trigger] span(b, start, end) == b.subrange(
            r.0 as int,
            r.1 as int,
        ),
{
    if start >= n {
        (n, n)
    } else if end > start && end - start <= n - start {
        (start, end)
    } else if end > start {
        (start, n)
    } else {
        (start, start)
    }
}

/// Strict: re-raises the error itself; a value that is no exception is a
/// type error.
pub fn strict_errors(err: &PyObjectRef) -> (r: Result<PyObjectRef, PyError>)
    ensures
        **err is Exception ==> r == Err::<PyObjectRef, PyError>(PyError::Raised(*err)),
        !(**err is Exception) ==> (r matches Err(PyError::TypeError(m)) && m@
            == "codec must pass exception instance"@),
{
    match &**err {
        PyObject::Exception(_) => Err(PyError::Raised(err.clone())),
        _ => Err(PyError::TypeError(text("codec must pass exception instance"))),
    }
}

/// Ignore: drops the faulty span.
pub fn ignore_errors(err: &PyObjectRef) -> (r: Result<(String, usize), PyError>)
    ensures
        !is_decode_error(**err) && !is_encode_ish_error(**err) ==> (r matches Err(
            PyError::TypeError(m),
        ) && m@ == bad_err_message(**err)),
        is_decode_error(**err) || is_encode_ish_error(**err) ==> match error_range(**err) {
            Some((s, t)) => r matches Ok(out) && out.0@ == Seq::<char>::empty() && out.1 == t,
            None => r is Err,
        },
{
    match &**err {
        PyObject::Exception(e) => match e.kind {
            ExceptionKind::UnicodeDecodeError | ExceptionKind::UnicodeEncodeError
            | ExceptionKind::UnicodeTranslateError => {
                let (_, end) = extract_unicode_error_range(e)?;
                Ok((String::new(), end))
            },
            _ => Err(bad_err_type(err)),
        },
        _ => Err(bad_err_type(err)),
    }
}

fn repeat_char(c: char, n: usize) -> (r: String)
    ensures
        r@ == repeat(c, n as nat),
{
    let mut out = String::new();
    let mut i: usize = 0;
    while i < n
        invariant
            i <= n,
            out@ == repeat(c, i as nat),
        decreases n - i,
    {
        push_char(&mut out, c);
        i = i + 1;
        proof {
            assert(out@ =~= repeat(c, i as nat));
        }
    }
    out
}

/// Replace: one U+FFFD for a failed decode; a `?` for each character of the
/// span of a failed encode; a U+FFFD for each character of the span of a
/// failed translate.
pub fn replace_errors(err: &PyObjectRef) -> (r: Result<(String, usize), PyError>)
    ensures
        !is_decode_error(**err) && !is_encode_ish_error(**err) ==> (r matches Err(
            PyError::TypeError(m),
        ) && m@ == bad_err_message(**err)),
        is_decode_error(**err) || is_encode_ish_error(**err) ==> match error_range(**err) {
            Some((s, t)) => r matches Ok(out) && out.1 == t && out.0@ == (match **err {
                PyObject::Exception(e) => match e.kind {
                    ExceptionKind::UnicodeEncodeError => repeat('?', span_len(s, t)),
                    ExceptionKind::UnicodeTranslateError => repeat('\u{FFFD}', span_len(s, t)),
                    _ => seq!['\u{FFFD}'],
                },
                _ => Seq::empty(),
            }),
            None => r is Err,
        },
{
    match &**err {
        PyObject::Exception(e) => match e.kind {
            ExceptionKind::UnicodeDecodeError => {
                let (_, end) = extract_unicode_error_range(e)?;
                let mut out = String::new();
                push_char(&mut out, '\u{FFFD}');
                Ok((out, end))
            },
            ExceptionKind::UnicodeEncodeError => {
                let (start, end) = extract_unicode_error_range(e)?;
                let n: usize = if end > start {
                    end - start
                } else {
                    0
                };
                Ok((repeat_char('?', n), end))
            },
            ExceptionKind::UnicodeTranslateError => {
                let (start, end) = extract_unicode_error_range(e)?;
                let n: usize = if end > start {
                    end - start
                } else {
                    0
                };
                Ok((repeat_char('\u{FFFD}', n), end))
            },
            _ => Err(bad_err_type(err)),
        },
        _ => Err(bad_err_type(err)),
    }
}

fn push_xml_refs(out: &mut String, s: &str)
    ensures
        final(out)@ == old(out)@ + xml_refs(s@),
{
    let n = s.unicode_len();
    let mut i: usize = 0;
    while i < n
        invariant
            n == s@.len(),
            i <= n,
            out@ == old(out)@ + xml_refs(s@.subrange(0, i as int)),
        decreases n - i,
    {
        let c = s.get_char(i);
        let ghost before = out@;
        push_char(out, '&');
        push_char(out, '#');
        push_decimal(out, c as u32);
        push_char(out, ';');
        proof {
            let p = s@.subrange(0, i + 1);
            assert(p.drop_last() =~= s@.subrange(0, i as int));
            assert(p.last() == c);
            assert(out@ =~= old(out)@ + xml_refs(p));
        }
        i = i + 1;
    }
    proof {
        assert(s@.subrange(0, n as int) =~= s@);
    }
}

fn push_char_escapes(out: &mut String, s: &str)
    ensures
        final(out)@ == old(out)@ + char_escapes(s@),
{
    let n = s.unicode_len();
    let mut i: usize = 0;
    while i < n
        invariant
            n == s@.len(),
            i <= n,
            out@ == old(out)@ + char_escapes(s@.subrange(0, i as int)),
        decreases n - i,
    {
        let c = s.get_char(i);
        let v = c as u32;
        push_char(out, '\\');
        if v >= 0x10000 {
            push_char(out, 'U');
            push_hex(out, v, 8);
        } else if v >= 0x100 {
            push_char(out, 'u');
            push_hex(out, v, 4);
        } else {
            push_char(out, 'x');
            push_hex(out, v, 2);
        }
        proof {
            let p = s@.subrange(0, i + 1);
            assert(p.drop_last() =~= s@.subrange(0, i as int));
            assert(p.last() == c);
            assert(out@ =~= old(out)@ + char_escapes(p));
        }
        i = i + 1;
    }
    proof {
        assert(s@.subrange(0, n as int) =~= s@);
    }
}

fn push_byte_escapes(out: &mut String, b: &Vec<u8>, from: usize, to: usize)
    requires
        from <= to <= b@.len(),
    ensures
        final(out)@ == old(out)@ + byte_escapes(b@.subrange(from as int, to as int)),
{
    let mut i: usize = from;
    while i < to
        invariant
            from <= i <= to <= b@.len(),
            out@ == old(out)@ + byte_escapes(b@.subrange(from as int, i as int)),
        decreases to - i,
    {
        let x = b[i];
        push_char(out, '\\');
        push_char(out, 'x');
        push_hex(out, x as u32, 2);
        proof {
            let p = b@.subrange(from as int, i + 1);
            assert(p.drop_last() =~= b@.subrange(from as int, i as int));
            assert(p.last() == x);
            assert(out@ =~= old(out)@ + byte_escapes(p));
        }
        i = i + 1;
    }
}

/// Xmlcharrefreplace: `&#N;`, N in decimal, for each character of the span
/// of a failed encode or translate; a failed decode is a type error.
pub fn xmlcharrefreplace_errors(err: &PyObjectRef) -> (r: Result<(String, usize), PyError>)
    ensures
        !is_encode_ish_error(**err) ==> (r matches Err(PyError::TypeError(m)) && m@
            == bad_err_message(**err)),
        is_encode_ish_error(**err) ==> match error_range(**err) {
            Some((s, t)) => match error_object(**err) {
                PyObject::Str(text) => r matches Ok(out) && out.1 == t && out.0@ == xml_refs(
                    span(text@, s, t),
                ),
                o => r matches Err(PyError::TypeError(m)) && m@ == wrong_object_message(
                    "str"@,
                    o,
                ),
            },
            None => r is Err,
        },
{
    if !is_encode_ish_err(err) {
        return Err(bad_err_type(err));
    }
    match &**err {
        PyObject::Exception(e) => {
            let (start, end) = extract_unicode_error_range(e)?;
            match &*e.object {
                PyObject::Str(s) => {
                    let (from, to) = span_bounds(s.as_str().unicode_len(), start, end);
                    let part = s.as_str().substring_char(from, to);
                    let mut out = String::new();
                    push_xml_refs(&mut out, part);
                    Ok((out, end))
                },
                _ => Err(wrong_object("str", &e.object)),
            }
        },
        _ => Err(bad_err_type(err)),
    }
}

/// Backslashreplace: `\xHH` for each byte of the span of a failed decode;
/// `\xHH`, `\uHHHH` or `\UHHHHHHHH` for each character of the span of a
/// failed encode or translate.
pub fn backslashreplace_errors(err: &PyObjectRef) -> (r: Result<(String, usize), PyError>)
    ensures
        !is_decode_error(**err) && !is_encode_ish_error(**err) ==> (r matches Err(
            PyError::TypeError(m),
        ) && m@ == bad_err_message(**err)),
        is_decode_error(**err) ==> match error_range(**err) {
            Some((s, t)) => match error_object(**err) {
                PyObject::Bytes(b) => r matches Ok(out) && out.1 == t && out.0@ == byte_escapes(
                    span(b@, s, t),
                ),
                o => r matches Err(PyError::TypeError(m)) && m@ == wrong_object_message(
                    "bytes"@,
                    o,
                ),
            },
            None => r is Err,
        },
        is_encode_ish_error(**err) ==> match error_range(**err) {
            Some((s, t)) => match error_object(**err) {
                PyObject::Str(text) => r matches Ok(out) && out.1 == t && out.0@ == char_escapes(
                    span(text@, s, t),
                ),
                o => r matches Err(PyError::TypeError(m)) && m@ == wrong_object_message(
                    "str"@,
                    o,
                ),
            },
            None => r is Err,
        },
{
    match &**err {
        PyObject::Exception(e) => match e.kind {
            ExceptionKind::UnicodeDecodeError => {
                let (start, end) = extract_unicode_error_range(e)?;
                match &*e.object {
                    PyObject::Bytes(b) => {
                        let (from, to) = span_bounds(b.len(), start, end);
                        let mut out = String::new();
                        push_byte_escapes(&mut out, b, from, to);
                        Ok((out, end))
                    },
                    _ => Err(wrong_object("bytes", &e.object)),
                }
            },
            ExceptionKind::UnicodeEncodeError | ExceptionKind::UnicodeTranslateError => {
                let (start, end) = extract_unicode_error_range(e)?;
                match &*e.object {
                    PyObject::Str(s) => {
                        let (from, to) = span_bounds(s.as_str().unicode_len(), start, end);
                        let part = s.as_str().substring_char(from, to);
                        let mut out = String::new();
                        push_char_escapes(&mut out, part);
                        Ok((out, end))
                    },
                    _ => Err(wrong_object("str", &e.object)),
                }
            },
            _ => Err(bad_err_type(err)),
        },
        _ => Err(bad_err_type(err)),
    }
}

} // verus!
