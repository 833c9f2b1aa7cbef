//! Codec handles: validated bundles of four capabilities.
use std::sync::Arc;
use vstd::prelude::*;

use crate::object::{PyError, PyObject, PyObjectRef, PyTupleRef};
use crate::text::text;

verus! {

/// A capability to invoke, with the arguments to pass it.
#[derive(Clone, Debug)]
pub struct Invocation {
    pub func: PyObjectRef,
    pub args: Vec<PyObjectRef>,
}

/// A codec handle: a tuple of exactly four capabilities, in order encode,
/// decode, make-incremental-encoder, make-incremental-decoder. Clones share
/// the tuple.
#[derive(Debug)]
pub struct PyCodec(PyTupleRef);

impl Clone for PyCodec {
    fn clone(&self) -> (r: Self)
        ensures
            r == *self,
    {
        proof {
            use_type_invariant(self);
        }
        PyCodec(self.0.clone())
    }
}

/// The arguments handed to a capability: the optional error-policy name
/// comes last.
pub open spec fn args_with_errors(prefix: Seq<PyObjectRef>, errors: Option<String>, args: Seq<
    PyObjectRef,
>) -> bool {
    match errors {
        Some(e) => args.len() == prefix.len() + 1 && args.subrange(0, prefix.len() as int)
            == prefix && *args[prefix.len() as int] == PyObject::Str(e),
        None => args == prefix,
    }
}

/// What a capability returned, when it is the pair `(result, length)`: the result.
pub open spec fn pair_first(res: PyObject) -> Option<PyObjectRef> {
    match res {
        PyObject::Tuple(t) => if t.items.len() == 2 {
            Some(t.items[0])
        } else {
            None
        },
        _ => None,
    }
}

fn with_errors(prefix: Vec<PyObjectRef>, errors: Option<String>) -> (r: Vec<PyObjectRef>)
    ensures
        args_with_errors(prefix@, errors, r@),
{
    let mut args = prefix;
    match errors {
        Some(e) => {
            args.push(Arc::new(PyObject::Str(e)));
            proof {
                assert(args@.subrange(0, prefix@.len() as int) =~= prefix@);
            }
        },
        None => {},
    }
    args
}

/// Takes the result out of a capability's `(result, length)` pair.
fn unpack_pair(res: &PyObjectRef, message: &str) -> (r: Result<PyObjectRef, PyError>)
    ensures
        pair_first(**res) matches Some(x) ==> r == Ok::<PyObjectRef, PyError>(x),
        pair_first(**res) is None ==> (r matches Err(PyError::TypeError(m)) && m@ == message@),
{
    match &**res {
        PyObject::Tuple(t) => {
            if t.items.len() == 2 {
                return Ok(t.items[0].clone());
            }
        },
        _ => {},
    }
    Err(PyError::TypeError(text(message)))
}

impl PyCodec {
    #[verifier::type_invariant]
    spec fn has_four(&self) -> bool {
        self.0.items.len() == 4
    }

    /// The tuple behind the handle.
    pub closed spec fn tuple(&self) -> PyTupleRef {
        self.0
    }

    /// Capability `i` of the handle (0 encode, 1 decode, 2 and 3 the
    /// incremental encoder and decoder factories).
    pub open spec fn slot(&self, i: int) -> PyObjectRef {
        self.tuple().items[i]
    }

    /// A handle for a tuple of exactly four items; any other tuple is handed back.
    pub fn from_tuple(tuple: PyTupleRef) -> (r: Result<Self, PyTupleRef>)
        ensures
            tuple.items.len() == 4 ==> (r matches Ok(c) && c.tuple() == tuple),
            tuple.items.len() != 4 ==> r == Err::<Self, PyTupleRef>(tuple),
    {
        if tuple.items.len() == 4 {
            Ok(PyCodec(tuple))
        } else {
            Err(tuple)
        }
    }

    pub fn into_tuple(self) -> (r: PyTupleRef)
        ensures
            r == self.tuple(),
    {
        self.0
    }

    pub fn as_tuple(&self) -> (r: &PyTupleRef)
        ensures
            *r == self.tuple(),
    {
        &self.0
    }

    pub fn get_encode_func(&self) -> (r: &PyObjectRef)
        ensures
            *r == self.slot(0),
    {
        proof {
            use_type_invariant(self);
        }
        &self.0.items[0]
    }

    pub fn get_decode_func(&self) -> (r: &PyObjectRef)
        ensures
            *r == self.slot(1),
    {
        proof {
            use_type_invariant(self);
        }
        &self.0.items[1]
    }

    /// Whether the codec transforms text: the tuple's marker attribute, or
    /// `true` where it has none.
    pub fn is_text_codec(&self) -> (r: bool)
        ensures
            r == match self.tuple().is_text_encoding {
                Some(b) => b,
                None => true,
            },
    {
        match self.0.is_text_encoding {
            Some(b) => b,
            None => true,
        }
    }

    /// The call that encodes `obj`: the encode capability, with `obj` and
    /// the optional error-policy name.
    pub fn encode(&self, obj: PyObjectRef, errors: Option<String>) -> (r: Invocation)
        ensures
            r.func == self.slot(0),
            args_with_errors(seq![obj], errors, r.args@),
    {
        let func = self.get_encode_func().clone();
        let ghost o = obj;
        let prefix = vec![obj];
        proof {
            assert(prefix@ =~= seq![o]);
        }
        let args = with_errors(prefix, errors);
        Invocation { func, args }
    }

    /// The call that decodes `obj`: the decode capability, with `obj` and
    /// the optional error-policy name.
    pub fn decode(&self, obj: PyObjectRef, errors: Option<String>) -> (r: Invocation)
        ensures
            r.func == self.slot(1),
            args_with_errors(seq![obj], errors, r.args@),
    {
        let func = self.get_decode_func().clone();
        let ghost o = obj;
        let prefix = vec![obj];
        proof {
            assert(prefix@ =~= seq![o]);
        }
        let args = with_errors(prefix, errors);
        Invocation { func, args }
    }

    /// What encoding gives, from what the encode capability returned: the
    /// first item of a pair; anything else is a type error.
    pub fn encode_result(res: &PyObjectRef) -> (r: Result<PyObjectRef, PyError>)
        ensures
            pair_first(**res) matches Some(x) ==> r == Ok::<PyObjectRef, PyError>(x),
            pair_first(**res) is None ==> (r matches Err(PyError::TypeError(m)) && m@
                == "encoder must return a tuple (object, integer)"@),
    {
        unpack_pair(res, "encoder must return a tuple (object, integer)")
    }

    /// What decoding gives, from what the decode capability returned: the
    /// first item of a pair; anything else is a type error.
    pub fn decode_result(res: &PyObjectRef) -> (r: Result<PyObjectRef, PyError>)
        ensures
            pair_first(**res) matches Some(x) ==> r == Ok::<PyObjectRef, PyError>(x),
            pair_first(**res) is None ==> (r matches Err(PyError::TypeError(m)) && m@
                == "decoder must return a tuple (object,integer)"@),
    {
        unpack_pair(res, "decoder must return a tuple (object,integer)")
    }

    /// The call that makes an incremental encoder: the third capability,
    /// with the optional error-policy name.
    pub fn get_incremental_encoder(&self, errors: Option<String>) -> (r: Invocation)
        ensures
            r.func == self.slot(2),
            args_with_errors(Seq::empty(), errors, r.args@),
    {
        proof {
            use_type_invariant(self);
        }
        let func = self.0.items[2].clone();
        let args = with_errors(Vec::new(), errors);
        Invocation { func, args }
    }

    /// The call that makes an incremental decoder: the fourth capability,
    /// with the optional error-policy name.
    pub fn get_incremental_decoder(&self, errors: Option<String>) -> (r: Invocation)
        ensures
            r.func == self.slot(3),
            args_with_errors(Seq::empty(), errors, r.args@),
    {
        proof {
            use_type_invariant(self);
        }
        let func = self.0.items[3].clone();
        let args = with_errors(Vec::new(), errors);
        Invocation { func, args }
    }
}

} // verus!
