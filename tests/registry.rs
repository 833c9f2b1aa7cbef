use std::sync::Arc;

use codecs::{
    BuiltinHandler, CodecsRegistry, Lookup, PyCodec, PyError, PyObject, PyObjectRef, PyTuple,
    Search, SearchAction, DEFAULT_ENCODING,
};

fn obj(o: PyObject) -> PyObjectRef {
    Arc::new(o)
}

fn codec_tuple(base: u64, is_text: Option<bool>) -> PyObjectRef {
    let items = (0..4).map(|i| obj(PyObject::Function(base + i))).collect();
    obj(PyObject::Tuple(Arc::new(PyTuple { items, is_text_encoding: is_text })))
}

fn pair(first: PyObject) -> PyObjectRef {
    obj(PyObject::Tuple(Arc::new(PyTuple {
        items: vec![obj(first), obj(PyObject::Int(1))],
        is_text_encoding: None,
    })))
}

/// Runs a search, answering each provider `Function(id)` by `answer(id, name)`;
/// returns the outcome and the ids of the providers called, in order.
fn run_search(
    reg: &mut CodecsRegistry,
    encoding: &str,
    answer: &dyn Fn(u64, &str) -> PyObjectRef,
) -> (Result<PyCodec, PyError>, Vec<u64>) {
    let mut called = Vec::new();
    let mut search: Search = match reg.lookup(encoding) {
        Lookup::Cached(c) => return (Ok(c), called),
        Lookup::Search(s) => s,
    };
    loop {
        match search.action() {
            SearchAction::Fail(e) => return (Err(e), called),
            SearchAction::Invoke(inv) => {
                let id = match &*inv.func {
                    PyObject::Function(id) => *id,
                    other => panic!("provider {:?}", other),
                };
                called.push(id);
                let name = match &*inv.args[0] {
                    PyObject::Str(s) => s.clone(),
                    other => panic!("argument {:?}", other),
                };
                let res = answer(id, &name);
                match search.deliver(&res) {
                    Err(e) => return (Err(e), called),
                    Ok(None) => {}
                    Ok(Some(c)) => {
                        let name = search.name().to_string();
                        return (Ok(reg.store(&name, c)), called);
                    }
                }
            }
        }
    }
}

fn answer_utf8(id: u64, name: &str) -> PyObjectRef {
    if id == 2 && name == "utf-8" {
        codec_tuple(100, None)
    } else {
        obj(PyObject::NoneValue)
    }
}

fn registry_with_providers() -> CodecsRegistry {
    let mut reg = CodecsRegistry::new();
    reg.register(obj(PyObject::Function(1))).unwrap();
    reg.register(obj(PyObject::Function(2))).unwrap();
    reg
}

#[test]
fn default_encoding_is_utf8() {
    assert_eq!(DEFAULT_ENCODING, "utf-8");
}

#[test]
fn lookup_walks_providers_in_order() {
    let mut reg = registry_with_providers();
    let (r, called) = run_search(&mut reg, "UTF 8".replace(' ', "-").as_str(), &answer_utf8);
    assert!(r.is_ok());
    assert_eq!(called, vec![1, 2]);
}

#[test]
fn second_lookup_is_cached_and_identical() {
    let mut reg = registry_with_providers();
    let (first, called) = run_search(&mut reg, "UTF-8", &answer_utf8);
    let first = first.unwrap();
    assert_eq!(called, vec![1, 2]);
    let (second, called) = run_search(&mut reg, "utf-8", &answer_utf8);
    assert!(called.is_empty());
    assert!(Arc::ptr_eq(first.as_tuple(), second.unwrap().as_tuple()));
}

#[test]
fn racing_store_keeps_first_codec() {
    let mut reg = registry_with_providers();
    let a = match reg.lookup("utf-8") {
        Lookup::Search(s) => s,
        Lookup::Cached(_) => panic!("cached too early"),
    };
    let b = match reg.lookup("UTF-8") {
        Lookup::Search(s) => s,
        Lookup::Cached(_) => panic!("cached too early"),
    };
    let make = |base| match &*codec_tuple(base, None) {
        PyObject::Tuple(t) => PyCodec::from_tuple(t.clone()).unwrap(),
        _ => unreachable!(),
    };
    let first = reg.store(a.name(), make(10));
    let second = reg.store(b.name(), make(20));
    assert!(Arc::ptr_eq(first.as_tuple(), second.as_tuple()));
    match reg.lookup("utf-8") {
        Lookup::Cached(c) => assert!(Arc::ptr_eq(c.as_tuple(), first.as_tuple())),
        Lookup::Search(_) => panic!("not cached"),
    }
}

#[test]
fn forget_then_lookup_restarts_search() {
    let mut reg = registry_with_providers();
    let (first, _) = run_search(&mut reg, "utf-8", &answer_utf8);
    let forgotten = reg.forget("UTF-8").unwrap();
    assert!(Arc::ptr_eq(forgotten.as_tuple(), first.unwrap().as_tuple()));
    assert!(reg.forget("utf-8").is_none());
    let (_, called) = run_search(&mut reg, "utf-8", &answer_utf8);
    assert_eq!(called, vec![1, 2]);
}

#[test]
fn unknown_encoding_is_a_lookup_error() {
    let mut reg = registry_with_providers();
    let (r, called) = run_search(&mut reg, "no-such-encoding", &answer_utf8);
    assert_eq!(called, vec![1, 2]);
    match r {
        Err(PyError::LookupError(m)) => {
            assert_eq!(m, "unknown encoding: no-such-encoding");
        }
        other => panic!("unexpected {:?}", other),
    }
}

#[test]
fn malformed_provider_result_is_a_type_error() {
    let mut reg = registry_with_providers();
    let (r, called) = run_search(&mut reg, "utf-8", &|_, _| obj(PyObject::Int(5)));
    assert_eq!(called, vec![1]);
    match r {
        Err(PyError::TypeError(m)) => assert_eq!(m, "codec search functions must return 4-tuples"),
        other => panic!("unexpected {:?}", other),
    }
    let short = obj(PyObject::Tuple(Arc::new(PyTuple {
        items: vec![obj(PyObject::Function(1))],
        is_text_encoding: None,
    })));
    let (r, _) = run_search(&mut reg, "utf-8", &|_, _| short.clone());
    assert!(matches!(r, Err(PyError::TypeError(_))));
}

#[test]
fn register_rejects_non_callables() {
    let mut reg = CodecsRegistry::new();
    match reg.register(obj(PyObject::Int(1))) {
        Err(PyError::TypeError(m)) => assert_eq!(m, "argument must be callable"),
        other => panic!("unexpected {:?}", other),
    }
    let (r, called) = run_search(&mut reg, "utf-8", &answer_utf8);
    assert!(called.is_empty());
    assert!(matches!(r, Err(PyError::LookupError(_))));
}

#[test]
fn register_error_returns_builtin_strict() {
    let mut reg = CodecsRegistry::new();
    let prev = reg.register_error("strict".to_string(), obj(PyObject::Function(9)));
    assert!(matches!(prev.as_deref(), Some(PyObject::ErrorHandler(BuiltinHandler::Strict))));
    let now = reg.lookup_error("strict").unwrap();
    assert!(matches!(&*now, PyObject::Function(9)));
    assert!(reg.register_error("custom".to_string(), obj(PyObject::Function(3))).is_none());
}

#[test]
fn builtin_error_handlers_are_registered() {
    let reg = CodecsRegistry::new();
    for (name, h) in [
        ("strict", BuiltinHandler::Strict),
        ("ignore", BuiltinHandler::Ignore),
        ("replace", BuiltinHandler::Replace),
        ("xmlcharrefreplace", BuiltinHandler::XmlCharRefReplace),
        ("backslashreplace", BuiltinHandler::BackslashReplace),
    ] {
        match reg.lookup_error_opt(name).as_deref() {
            Some(PyObject::ErrorHandler(found)) => assert_eq!(*found, h),
            other => panic!("{}: {:?}", name, other),
        }
    }
}

#[test]
fn unknown_error_handler_is_a_lookup_error() {
    let reg = CodecsRegistry::new();
    assert!(reg.lookup_error_opt("nope").is_none());
    match reg.lookup_error("nope") {
        Err(PyError::LookupError(m)) => assert_eq!(m, "unknown error handler name 'nope'"),
        other => panic!("unexpected {:?}", other),
    }
}

#[test]
fn encode_text_rejects_non_bytes_result() {
    match CodecsRegistry::encode_text("rot13", &pair(PyObject::Str("x".to_string()))) {
        Err(PyError::TypeError(m)) => assert_eq!(
            m,
            "'rot13' encoder returned 'str' instead of 'bytes'; use codecs.encode() to encode arbitrary types"
        ),
        other => panic!("unexpected {:?}", other),
    }
    let ok = CodecsRegistry::encode_text("utf-8", &pair(PyObject::Bytes(vec![104, 105]))).unwrap();
    assert!(matches!(&*ok, PyObject::Bytes(b) if b == &vec![104, 105]));
}

#[test]
fn decode_text_rejects_non_str_result() {
    match CodecsRegistry::decode_text("hex", &pair(PyObject::Bytes(vec![1]))) {
        Err(PyError::TypeError(m)) => assert_eq!(
            m,
            "'hex' decoder returned 'bytes' instead of 'str'; use codecs.decode() to encode arbitrary types"
        ),
        other => panic!("unexpected {:?}", other),
    }
    let ok = CodecsRegistry::decode_text("utf-8", &pair(PyObject::Str("hi".to_string()))).unwrap();
    assert!(matches!(&*ok, PyObject::Str(s) if s == "hi"));
}

#[test]
fn capability_result_must_be_a_pair() {
    match CodecsRegistry::encode_text("utf-8", &obj(PyObject::Int(0))) {
        Err(PyError::TypeError(m)) => assert_eq!(m, "encoder must return a tuple (object, integer)"),
        other => panic!("unexpected {:?}", other),
    }
    match PyCodec::decode_result(&obj(PyObject::NoneValue)) {
        Err(PyError::TypeError(m)) => assert_eq!(m, "decoder must return a tuple (object,integer)"),
        other => panic!("unexpected {:?}", other),
    }
}

#[test]
fn text_check_follows_marker() {
    let make = |marker| match &*codec_tuple(0, marker) {
        PyObject::Tuple(t) => PyCodec::from_tuple(t.clone()).unwrap(),
        _ => unreachable!(),
    };
    assert!(make(None).is_text_codec());
    assert!(CodecsRegistry::lookup_text_encoding(make(Some(true)), "utf-8", "codecs.encode()").is_ok());
    match CodecsRegistry::lookup_text_encoding(make(Some(false)), "hex", "codecs.encode()") {
        Err(PyError::LookupError(m)) => assert_eq!(
            m,
            "'hex' is not a text encoding; use codecs.encode() to handle arbitrary codecs"
        ),
        other => panic!("unexpected {:?}", other),
    }
}

#[test]
fn codec_needs_exactly_four_items() {
    let three = Arc::new(PyTuple {
        items: (0..3).map(|i| obj(PyObject::Function(i))).collect(),
        is_text_encoding: None,
    });
    let back = PyCodec::from_tuple(three.clone()).unwrap_err();
    assert!(Arc::ptr_eq(&back, &three));
}

#[test]
fn codec_invocations_use_slots_and_errors() {
    let codec = match &*codec_tuple(40, None) {
        PyObject::Tuple(t) => PyCodec::from_tuple(t.clone()).unwrap(),
        _ => unreachable!(),
    };
    assert!(matches!(&**codec.get_encode_func(), PyObject::Function(40)));
    assert!(matches!(&**codec.get_decode_func(), PyObject::Function(41)));
    let inv = codec.encode(obj(PyObject::Str("a".to_string())), Some("strict".to_string()));
    assert!(matches!(&*inv.func, PyObject::Function(40)));
    assert_eq!(inv.args.len(), 2);
    assert!(matches!(&*inv.args[1], PyObject::Str(s) if s == "strict"));
    let inv = codec.decode(obj(PyObject::Bytes(vec![])), None);
    assert!(matches!(&*inv.func, PyObject::Function(41)));
    assert_eq!(inv.args.len(), 1);
    let inv = codec.get_incremental_encoder(None);
    assert!(matches!(&*inv.func, PyObject::Function(42)) && inv.args.is_empty());
    let inv = codec.get_incremental_decoder(Some("ignore".to_string()));
    assert!(matches!(&*inv.func, PyObject::Function(43)) && inv.args.len() == 1);
    let tuple = codec.into_tuple();
    assert_eq!(tuple.items.len(), 4);
}
