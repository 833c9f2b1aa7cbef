//! The runtime values that this layer handles, and the failures it reports.
use std::sync::Arc;
use vstd::prelude::*;

use crate::text::{concat3, text};

verus! {

/// A shared reference to a runtime value. Clones share the same value.
pub type PyObjectRef = Arc<PyObject>;

/// A shared reference to a tuple.
pub type PyTupleRef = Arc<PyTuple>;

/// The built-in error-recovery policies.
#[derive(Clone, Copy, Debug, PartialEq, Eq, Structural)]
pub enum BuiltinHandler {
    Strict,
    Ignore,
    Replace,
    XmlCharRefReplace,
    BackslashReplace,
}

/// The class of an exception value.
#[derive(Clone, Debug)]
pub enum ExceptionKind {
    UnicodeDecodeError,
    UnicodeEncodeError,
    UnicodeTranslateError,
    /// Any other exception class, by name.
    Other(String),
}

/// An exception value. For the three Unicode error classes, `start` and
/// `end` bound the faulty span of `object` (bytes for decoding, text
/// otherwise).
#[derive(Clone, Debug)]
pub struct PyException {
    pub kind: ExceptionKind,
    pub start: PyObjectRef,
    pub end: PyObjectRef,
    pub object: PyObjectRef,
}

/// A tuple, with the optional `_is_text_encoding` marker attribute that
/// codec-information tuples may carry.
#[derive(Clone, Debug)]
pub struct PyTuple {
    pub items: Vec<PyObjectRef>,
    pub is_text_encoding: Option<bool>,
}

/// A runtime value.
#[derive(Clone, Debug)]
pub enum PyObject {
    NoneValue,
    Int(i64),
    Str(String),
    Bytes(Vec<u8>),
    Tuple(PyTupleRef),
    /// An invocable value supplied by the host, known by its identity there.
    Function(u64),
    /// One of the built-in error handlers, as an invocable value.
    ErrorHandler(BuiltinHandler),
    Exception(PyException),
}

/// A failure surfaced to the caller.
#[derive(Clone, Debug)]
pub enum PyError {
    TypeError(String),
    LookupError(String),
    OverflowError(String),
    /// An exception value propagated unchanged.
    Raised(PyObjectRef),
}

pub open spec fn exception_class_name(k: ExceptionKind) -> Seq<char> {
    match k {
        ExceptionKind::UnicodeDecodeError => "UnicodeDecodeError"@,
        ExceptionKind::UnicodeEncodeError => "UnicodeEncodeError"@,
        ExceptionKind::UnicodeTranslateError => "UnicodeTranslateError"@,
        ExceptionKind::Other(name) => name@,
    }
}

/// The name of the class of a value.
pub open spec fn class_name(o: PyObject) -> Seq<char> {
    match o {
        PyObject::NoneValue => "NoneType"@,
        PyObject::Int(_) => "int"@,
        PyObject::Str(_) => "str"@,
        PyObject::Bytes(_) => "bytes"@,
        PyObject::Tuple(_) => "tuple"@,
        PyObject::Function(_) => "function"@,
        PyObject::ErrorHandler(_) => "builtin_function_or_method"@,
        PyObject::Exception(e) => exception_class_name(e.kind),
    }
}

/// A value that can be invoked.
pub open spec fn is_callable(o: PyObject) -> bool {
    o is Function || o is ErrorHandler
}

impl PyObject {
    /// The name of the value's class.
    pub fn class_name(&self) -> (r: String)
        ensures
            r@ == class_name(*self),
    {
        match self {
            PyObject::NoneValue => text("NoneType"),
            PyObject::Int(_) => text("int"),
            PyObject::Str(_) => text("str"),
            PyObject::Bytes(_) => text("bytes"),
            PyObject::Tuple(_) => text("tuple"),
            PyObject::Function(_) => text("function"),
            PyObject::ErrorHandler(_) => text("builtin_function_or_method"),
            PyObject::Exception(e) => match &e.kind {
                ExceptionKind::UnicodeDecodeError => text("UnicodeDecodeError"),
                ExceptionKind::UnicodeEncodeError => text("UnicodeEncodeError"),
                ExceptionKind::UnicodeTranslateError => text("UnicodeTranslateError"),
                ExceptionKind::Other(name) => text(name.as_str()),
            },
        }
    }

    /// Whether the value can be invoked.
    pub fn is_callable(&self) -> (r: bool)
        ensures
            r == is_callable(*self),
    {
        match self {
            PyObject::Function(_) | PyObject::ErrorHandler(_) => true,
            _ => false,
        }
    }
}

/// What converting a value to an index gives: its value for a
/// non-negative int, a type error for a value that is no int, an overflow
/// error for a negative int.
pub open spec fn index_of_value(o: PyObject) -> Option<usize> {
    match o {
        PyObject::Int(i) => if 0 <= i && i <= usize::MAX {
            Some(i as usize)
        } else {
            None
        },
        _ => None,
    }
}

/// Converts a value to a non-negative index.
pub fn to_index(o: &PyObject) -> (r: Result<usize, PyError>)
    ensures
        index_of_value(*o) matches Some(v) ==> r == Ok::<usize, PyError>(v),
        index_of_value(*o) is None ==> r is Err,
        r matches Err(e) ==> (o is Int ==> e is OverflowError) && (!(o is Int)
            ==> e is TypeError),
{
    match o {
        PyObject::Int(i) => {
            if *i < 0 {
                Err(PyError::OverflowError(text("can't convert negative int to unsigned")))
            } else if (*i as u64) > (usize::MAX as u64) {
                Err(PyError::OverflowError(text("int too large to convert to an index")))
            } else {
                Ok(*i as usize)
            }
        },
        _ => {
            let name = o.class_name();
            Err(
                PyError::TypeError(
                    concat3("'", name.as_str(), "' object cannot be interpreted as an integer"),
                ),
            )
        },
    }
}

} // verus!
