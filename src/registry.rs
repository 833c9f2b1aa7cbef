//! The codec registry: search providers, the resolution cache and the
//! error-handler table.
//!
//! Resolving a name that is not cached calls providers, which are host
//! callbacks that may re-enter the registry. So resolution comes in steps:
//! `lookup` reads the cache and, on a miss, hands out a `Search` over a
//! snapshot of the providers; the host invokes each provider that the search
//! asks for, with no lock held, and feeds back what it returned; on a match
//! the host takes the write lock and calls `store`, whose insert keeps an
//! entry that a racing caller put there first.
use std::sync::Arc;
use vstd::hash_map::StringHashMap;
use vstd::prelude::*;
use vstd::string::*;

use crate::codec::{pair_first, Invocation, PyCodec};
use crate::normalize::{lemma_normalize_idempotent, normalize, normalize_encoding_name};
use crate::object::{class_name, is_callable, BuiltinHandler, PyError, PyObject, PyObjectRef};
use crate::text::text;

verus! {

/// The encoding used where none is named.
pub const DEFAULT_ENCODING: &'static str = "utf-8";

/// The names under which the built-in error handlers are registered.
pub open spec fn is_builtin_handler_name(n: Seq<char>) -> bool {
    n == "strict"@ || n == "ignore"@ || n == "replace"@ || n == "xmlcharrefreplace"@ || n
        == "backslashreplace"@
}

/// The codec cached for `encoding`, if any.
pub open spec fn cached_codec(cache: Map<Seq<char>, PyCodec>, encoding: Seq<char>) -> Option<
    PyCodec,
> {
    let n = normalize(encoding);
    if cache.contains_key(n) {
        Some(cache[n])
    } else {
        None
    }
}

/// The cache after a race-tolerant insert of `codec` under `key`: an entry
/// already there is kept.
pub open spec fn cache_after_store(cache: Map<Seq<char>, PyCodec>, key: Seq<char>, codec: PyCodec) -> Map<
    Seq<char>,
    PyCodec,
> {
    if cache.contains_key(key) {
        cache
    } else {
        cache.insert(key, codec)
    }
}

/// The codec that a race-tolerant insert leaves under `key`.
pub open spec fn stored_codec(cache: Map<Seq<char>, PyCodec>, key: Seq<char>, codec: PyCodec) -> PyCodec {
    if cache.contains_key(key) {
        cache[key]
    } else {
        codec
    }
}

/// The message of the failure to resolve `name`.
pub open spec fn unknown_encoding_message(name: Seq<char>) -> Seq<char> {
    "unknown encoding: "@ + name
}

/// Once a search for `encoding` has stored a codec under its normalized
/// name, looking `encoding` up again finds, in the cache, the very codec that
/// the store returned: no provider is called.
pub proof fn lemma_lookup_after_store(
    cache: Map<Seq<char>, PyCodec>,
    encoding: Seq<char>,
    codec: PyCodec,
)
    ensures
        cached_codec(
            cache_after_store(cache, normalize(normalize(encoding)), codec),
            encoding,
        ) == Some(stored_codec(cache, normalize(normalize(encoding)), codec)),
{
    lemma_normalize_idempotent(encoding);
}

/// Two resolutions of names with one normalized form that store in turn
/// both get the codec stored first, and that codec stays cached.
pub proof fn lemma_racing_stores_converge(
    cache: Map<Seq<char>, PyCodec>,
    first: Seq<char>,
    second: Seq<char>,
    c1: PyCodec,
    c2: PyCodec,
)
    requires
        normalize(first) == normalize(second),
    ensures
        ({
            let after_first = cache_after_store(cache, normalize(first), c1);
            let after_second = cache_after_store(after_first, normalize(second), c2);
            &&& stored_codec(after_first, normalize(second), c2) == stored_codec(
                cache,
                normalize(first),
                c1,
            )
            &&& cached_codec(after_second, first) == Some(stored_codec(cache, normalize(first), c1))
            &&& cached_codec(after_second, second) == Some(stored_codec(cache, normalize(first), c1))
        }),
{
}

/// After `forget`, no codec is cached for the name, so the next lookup
/// starts a search from the first provider.
pub proof fn lemma_forget_restarts_search(cache: Map<Seq<char>, PyCodec>, encoding: Seq<char>)
    ensures
        cached_codec(cache.remove(normalize(encoding)), encoding) is None,
{
}

/// The registry state shared by a runtime.
pub struct CodecsRegistry {
    search_path: Vec<PyObjectRef>,
    search_cache: StringHashMap<PyCodec>,
    errors: StringHashMap<PyObjectRef>,
}

/// A resolution in progress: the normalized name, the providers to try in
/// order, and how many of them have been tried.
pub struct Search {
    name: String,
    providers: Vec<PyObjectRef>,
    next: usize,
}

/// The first step of resolving a name.
pub enum Lookup {
    /// The name was cached: no provider is called.
    Cached(PyCodec),
    /// The name was not cached: the providers are to be asked.
    Search(Search),
}

/// What a search asks of the host next.
pub enum SearchAction {
    /// Invoke a provider with the normalized name and feed back its result.
    Invoke(Invocation),
    /// No provider matched: the resolution fails with this error.
    Fail(PyError),
}

impl Search {
    #[verifier::type_invariant]
    spec fn within(&self) -> bool {
        self.next <= self.providers.len()
    }

    /// The normalized name being resolved.
    pub closed spec fn spec_name(&self) -> Seq<char> {
        self.name@
    }

    /// The providers, in the order they are tried.
    pub closed spec fn providers(&self) -> Seq<PyObjectRef> {
        self.providers@
    }

    /// How many providers have been tried.
    pub closed spec fn tried(&self) -> nat {
        self.next as nat
    }

    /// The normalized name being resolved.
    pub fn name(&self) -> (r: &str)
        ensures
            r@ == self.spec_name(),
    {
        self.name.as_str()
    }

    /// The next provider to invoke, with the name as its one argument; or,
    /// once every provider has been tried, the lookup error naming the
    /// encoding.
    pub fn action(&self) -> (r: SearchAction)
        ensures
            self.tried() <= self.providers().len(),
            self.tried() < self.providers().len() ==> (r matches SearchAction::Invoke(inv)
                && inv.func == self.providers()[self.tried() as int] && inv.args@.len() == 1
                && (*inv.args@[0] matches PyObject::Str(a) && a@ == self.spec_name())),
            self.tried() == self.providers().len() ==> (r matches SearchAction::Fail(
                PyError::LookupError(m),
            ) && m@ == unknown_encoding_message(self.spec_name())),
    {
        proof {
            use_type_invariant(self);
        }
        if self.next < self.providers.len() {
            let func = self.providers[self.next].clone();
            let args = vec![Arc::new(PyObject::Str(self.name.clone()))];
            SearchAction::Invoke(Invocation { func, args })
        } else {
            let mut m = text("unknown encoding: ");
            m.append(self.name.as_str());
            SearchAction::Fail(PyError::LookupError(m))
        }
    }

    /// Takes what the provider that `action` asked for returned: nothing
    /// (try the next one), a four-tuple (the codec found), or anything else,
    /// which is a type error that ends the search.
    pub fn deliver(&mut self, res: &PyObjectRef) -> (r: Result<Option<PyCodec>, PyError>)
        requires
            old(self).tried() < old(self).providers().len(),
        ensures
            final(self).spec_name() == old(self).spec_name(),
            final(self).providers() == old(self).providers(),
            final(self).tried() == old(self).tried() + 1,
            **res is NoneValue ==> r == Ok::<Option<PyCodec>, PyError>(None),
            **res matches PyObject::Tuple(t) ==> (t.items.len() == 4 ==> (r matches Ok(Some(c))
                && c.tuple() == t)),
            !(**res is NoneValue) && !(**res matches PyObject::Tuple(t) && t.items.len() == 4)
                ==> (r matches Err(PyError::TypeError(m)) && m@
                == "codec search functions must return 4-tuples"@),
    {
        proof {
            use_type_invariant(&*self);
        }
        self.next = self.next + 1;
        match &**res {
            PyObject::NoneValue => Ok(None),
            PyObject::Tuple(t) => match PyCodec::from_tuple(t.clone()) {
                Ok(c) => Ok(Some(c)),
                Err(_) => Err(
                    PyError::TypeError(text("codec search functions must return 4-tuples")),
                ),
            },
            _ => Err(PyError::TypeError(text("codec search functions must return 4-tuples"))),
        }
    }
}

impl CodecsRegistry {
    /// The providers, in priority order.
    pub closed spec fn search_path(&self) -> Seq<PyObjectRef> {
        self.search_path@
    }

    /// The resolution cache, by normalized name.
    pub closed spec fn cache(&self) -> Map<Seq<char>, PyCodec> {
        self.search_cache@
    }

    /// The error-handler table, by name.
    pub closed spec fn error_handlers(&self) -> Map<Seq<char>, PyObjectRef> {
        self.errors@
    }

    /// Cache keys are normalized names, and the built-in handler names are bound.
    pub open spec fn wf(&self) -> bool {
        &&& forall|k: Seq<char>| #[trigger]
            self.cache().dom().contains(k) ==> normalize(k) == k
        &&& forall|n: Seq<char>| #[trigger]
            is_builtin_handler_name(n) ==> self.error_handlers().contains_key(n)
    }

    /// A registry with no providers, an empty cache and the five built-in
    /// error handlers.
    pub fn new() -> (r: Self)
        ensures
            r.wf(),
            r.search_path() == Seq::<PyObjectRef>::empty(),
            r.cache() == Map::<Seq<char>, PyCodec>::empty(),
            r.error_handlers().dom() == Set::new(|n: Seq<char>| is_builtin_handler_name(n)),
            *r.error_handlers()["strict"@] == PyObject::ErrorHandler(BuiltinHandler::Strict),
            *r.error_handlers()["ignore"@] == PyObject::ErrorHandler(BuiltinHandler::Ignore),
            *r.error_handlers()["replace"@] == PyObject::ErrorHandler(BuiltinHandler::Replace),
            *r.error_handlers()["xmlcharrefreplace"@] == PyObject::ErrorHandler(
                BuiltinHandler::XmlCharRefReplace,
            ),
            *r.error_handlers()["backslashreplace"@] == PyObject::ErrorHandler(
                BuiltinHandler::BackslashReplace,
            ),
    {
        let mut errors = StringHashMap::new();
        errors.insert(text("strict"), Arc::new(PyObject::ErrorHandler(BuiltinHandler::Strict)));
        errors.insert(text("ignore"), Arc::new(PyObject::ErrorHandler(BuiltinHandler::Ignore)));
        errors.insert(text("replace"), Arc::new(PyObject::ErrorHandler(BuiltinHandler::Replace)));
        errors.insert(
            text("xmlcharrefreplace"),
            Arc::new(PyObject::ErrorHandler(BuiltinHandler::XmlCharRefReplace)),
        );
        errors.insert(
            text("backslashreplace"),
            Arc::new(PyObject::ErrorHandler(BuiltinHandler::BackslashReplace)),
        );
        let r = CodecsRegistry {
            search_path: Vec::new(),
            search_cache: StringHashMap::new(),
            errors,
        };
        proof {
            reveal_strlit("strict");
            reveal_strlit("ignore");
            reveal_strlit("replace");
            reveal_strlit("xmlcharrefreplace");
            reveal_strlit("backslashreplace");
            assert("strict"@[0] != "ignore"@[0]);
            assert("replace"@[0] != "xmlcharrefreplace"@[0]);
            assert("replace"@[0] != "backslashreplace"@[0]);
            assert("xmlcharrefreplace"@[0] != "backslashreplace"@[0]);
            assert(r.error_handlers().dom() =~= Set::new(
                |n: Seq<char>| is_builtin_handler_name(n),
            ));
        }
        r
    }

    /// Appends a provider; one that cannot be invoked is a type error.
    pub fn register(&mut self, search_function: PyObjectRef) -> (r: Result<(), PyError>)
        requires
            old(self).wf(),
        ensures
            final(self).wf(),
            final(self).cache() == old(self).cache(),
            final(self).error_handlers() == old(self).error_handlers(),
            is_callable(*search_function) ==> r is Ok && final(self).search_path() == old(
                self,
            ).search_path().push(search_function),
            !is_callable(*search_function) ==> (r matches Err(PyError::TypeError(m)) && m@
                == "argument must be callable"@) && final(self).search_path() == old(
                self,
            ).search_path(),
    {
        if !search_function.is_callable() {
            return Err(PyError::TypeError(text("argument must be callable")));
        }
        self.search_path.push(search_function);
        proof {
            assert forall|k: Seq<char>| #[trigger]
                self.cache().dom().contains(k) implies normalize(k) == k by {
                assert(old(self).cache().dom().contains(k));
            }
        }
        Ok(())
    }

    /// The first step of resolving `encoding`: the cached codec for its
    /// normalized name, or a search over a snapshot of the providers.
    pub fn lookup(&self, encoding: &str) -> (r: Lookup)
        ensures
            cached_codec(self.cache(), encoding@) matches Some(c) ==> r == Lookup::Cached(c),
            cached_codec(self.cache(), encoding@) is None ==> (r matches Lookup::Search(s)
                && s.spec_name() == normalize(encoding@) && s.providers() == self.search_path()
                && s.tried() == 0),
    {
        let name = normalize_encoding_name(encoding);
        match self.search_cache.get(name.as_str()) {
            Some(codec) => Lookup::Cached(codec.clone()),
            None => {
                let mut providers: Vec<PyObjectRef> = Vec::new();
                let mut i: usize = 0;
                while i < self.search_path.len()
                    invariant
                        i <= self.search_path@.len(),
                        providers@ == self.search_path@.subrange(0, i as int),
                    decreases self.search_path@.len() - i,
                {
                    providers.push(self.search_path[i].clone());
                    proof {
                        assert(providers@ =~= self.search_path@.subrange(0, i + 1));
                    }
                    i = i + 1;
                }
                proof {
                    assert(providers@ =~= self.search_path@);
                }
                Lookup::Search(Search { name, providers, next: 0 })
            },
        }
    }

    /// Records `codec` for `encoding` unless a codec is already recorded for
    /// its normalized name, and returns the codec recorded.
    pub fn store(&mut self, encoding: &str, codec: PyCodec) -> (r: PyCodec)
        requires
            old(self).wf(),
        ensures
            final(self).wf(),
            final(self).cache() == cache_after_store(old(self).cache(), normalize(encoding@), codec),
            r == stored_codec(old(self).cache(), normalize(encoding@), codec),
            r == final(self).cache()[normalize(encoding@)],
            final(self).search_path() == old(self).search_path(),
            final(self).error_handlers() == old(self).error_handlers(),
    {
        let name = normalize_encoding_name(encoding);
        proof {
            lemma_normalize_idempotent(encoding@);
        }
        match self.search_cache.get(name.as_str()) {
            Some(existing) => existing.clone(),
            None => {
                let r = codec.clone();
                self.search_cache.insert(name, codec);
                proof {
                    assert forall|k: Seq<char>| #[trigger]
                        self.cache().dom().contains(k) implies normalize(k) == k by {
                        if k != normalize(encoding@) {
                            assert(old(self).cache().dom().contains(k));
                        }
                    }
                }
                r
            },
        }
    }

    /// Requires a text codec: `codec` itself if it is one, else a lookup
    /// error that points the caller at `generic_func`.
    pub fn lookup_text_encoding(codec: PyCodec, encoding: &str, generic_func: &str) -> (r: Result<
        PyCodec,
        PyError,
    >)
        ensures
            codec.tuple().is_text_encoding != Some(false) ==> r == Ok::<PyCodec, PyError>(codec),
            codec.tuple().is_text_encoding == Some(false) ==> (r matches Err(
                PyError::LookupError(m),
            ) && m@ == "'"@ + encoding@ + "' is not a text encoding; use "@ + generic_func@
                + " to handle arbitrary codecs"@),
    {
        if codec.is_text_codec() {
            Ok(codec)
        } else {
            let mut m = text("'");
            m.append(encoding);
            m.append("' is not a text encoding; use ");
            m.append(generic_func);
            m.append(" to handle arbitrary codecs");
            Err(PyError::LookupError(m))
        }
    }

    /// Drops the cache entry for `encoding`'s normalized name, returning it.
    pub fn forget(&mut self, encoding: &str) -> (r: Option<PyCodec>)
        requires
            old(self).wf(),
        ensures
            final(self).wf(),
            r == cached_codec(old(self).cache(), encoding@),
            final(self).cache() == old(self).cache().remove(normalize(encoding@)),
            final(self).search_path() == old(self).search_path(),
            final(self).error_handlers() == old(self).error_handlers(),
    {
        let name = normalize_encoding_name(encoding);
        let r = match self.search_cache.get(name.as_str()) {
            Some(c) => Some(c.clone()),
            None => None,
        };
        self.search_cache.remove(name.as_str());
        proof {
            assert forall|k: Seq<char>| #[trigger]
                self.cache().dom().contains(k) implies normalize(k) == k by {
                assert(old(self).cache().dom().contains(k));
            }
        }
        r
    }

    /// Text encoding, from what the encode capability of the codec resolved
    /// for `encoding` returned: the first item of the pair, which must be bytes.
    pub fn encode_text(encoding: &str, res: &PyObjectRef) -> (r: Result<PyObjectRef, PyError>)
        ensures
            pair_first(**res) is None ==> (r matches Err(PyError::TypeError(m)) && m@
                == "encoder must return a tuple (object, integer)"@),
            (pair_first(**res) matches Some(x) && *x is Bytes) ==> r == Ok::<
                PyObjectRef,
                PyError,
            >(pair_first(**res)->0),
            (pair_first(**res) matches Some(x) && !(*x is Bytes)) ==> (r matches Err(
                PyError::TypeError(m),
            ) && m@ == "'"@ + encoding@ + "' encoder returned '"@ + class_name(
                *pair_first(**res)->0,
            ) + "' instead of 'bytes'; use codecs.encode() to encode arbitrary types"@),
    {
        let x = PyCodec::encode_result(res)?;
        match &*x {
            PyObject::Bytes(_) => Ok(x),
            _ => {
                let mut m = text("'");
                m.append(encoding);
                m.append("' encoder returned '");
                m.append(x.class_name().as_str());
                m.append("' instead of 'bytes'; use codecs.encode() to encode arbitrary types");
                Err(PyError::TypeError(m))
            },
        }
    }

    /// Text decoding, from what the decode capability of the codec resolved
    /// for `encoding` returned: the first item of the pair, which must be text.
    pub fn decode_text(encoding: &str, res: &PyObjectRef) -> (r: Result<PyObjectRef, PyError>)
        ensures
            pair_first(**res) is None ==> (r matches Err(PyError::TypeError(m)) && m@
                == "decoder must return a tuple (object,integer)"@),
            (pair_first(**res) matches Some(x) && *x is Str) ==> r == Ok::<PyObjectRef, PyError>(
                pair_first(**res)->0,
            ),
            (pair_first(**res) matches Some(x) && !(*x is Str)) ==> (r matches Err(
                PyError::TypeError(m),
            ) && m@ == "'"@ + encoding@ + "' decoder returned '"@ + class_name(
                *pair_first(**res)->0,
            ) + "' instead of 'str'; use codecs.decode() to encode arbitrary types"@),
    {
        let x = PyCodec::decode_result(res)?;
        match &*x {
            PyObject::Str(_) => Ok(x),
            _ => {
                let mut m = text("'");
                m.append(encoding);
                m.append("' decoder returned '");
                m.append(x.class_name().as_str());
                m.append("' instead of 'str'; use codecs.decode() to encode arbitrary types");
                Err(PyError::TypeError(m))
            },
        }
    }

    /// Binds `name` to `handler`, returning what it was bound to before.
    pub fn register_error(&mut self, name: String, handler: PyObjectRef) -> (r: Option<PyObjectRef>)
        requires
            old(self).wf(),
        ensures
            final(self).wf(),
            final(self).error_handlers() == old(self).error_handlers().insert(name@, handler),
            old(self).error_handlers().contains_key(name@) ==> r == Some(
                old(self).error_handlers()[name@],
            ),
            !old(self).error_handlers().contains_key(name@) ==> r is None,
            is_builtin_handler_name(name@) ==> r is Some,
            final(self).search_path() == old(self).search_path(),
            final(self).cache() == old(self).cache(),
    {
        let r = match self.errors.get(name.as_str()) {
            Some(h) => Some(h.clone()),
            None => None,
        };
        self.errors.insert(name, handler);
        proof {
            assert forall|k: Seq<char>| #[trigger]
                self.cache().dom().contains(k) implies normalize(k) == k by {
                assert(old(self).cache().dom().contains(k));
            }
        }
        r
    }

    /// The handler bound to `name`, if any.
    pub fn lookup_error_opt(&self, name: &str) -> (r: Option<PyObjectRef>)
        ensures
            self.error_handlers().contains_key(name@) ==> r == Some(self.error_handlers()[name@]),
            !self.error_handlers().contains_key(name@) ==> r is None,
    {
        match self.errors.get(name) {
            Some(h) => Some(h.clone()),
            None => None,
        }
    }

    /// The handler bound to `name`; an unbound name is a lookup error.
    pub fn lookup_error(&self, name: &str) -> (r: Result<PyObjectRef, PyError>)
        ensures
            self.error_handlers().contains_key(name@) ==> r == Ok::<PyObjectRef, PyError>(
                self.error_handlers()[name@],
            ),
            !self.error_handlers().contains_key(name@) ==> (r matches Err(
                PyError::LookupError(m),
            ) && m@ == "unknown error handler name '"@ + name@ + "'"@),
    {
        match self.lookup_error_opt(name) {
            Some(h) => Ok(h),
            None => {
                let mut m = text("unknown error handler name '");
                m.append(name);
                m.append("'");
                Err(PyError::LookupError(m))
            },
        }
    }
}

} // verus!
