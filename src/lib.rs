//! Codec resolution and Unicode error recovery for a language runtime.

pub mod codec;
pub mod handlers;
pub mod normalize;
pub mod object;
pub mod registry;
pub mod text;

pub use codec::{Invocation, PyCodec};
pub use handlers::{
    backslashreplace_errors, bad_err_type, extract_unicode_error_range, ignore_errors,
    is_decode_err, is_encode_ish_err, replace_errors, strict_errors, xmlcharrefreplace_errors,
};
pub use normalize::normalize_encoding_name;
pub use object::{
    to_index, BuiltinHandler, ExceptionKind, PyError, PyException, PyObject, PyObjectRef,
    PyTuple, PyTupleRef,
};
pub use registry::{CodecsRegistry, Lookup, Search, SearchAction, DEFAULT_ENCODING};
