//! The call layer: a handle for guest callables, the argument-frame
//! marshalling every call arity shares, and the completion step that turns a
//! foreign call's outcome into a host result.

use vstd::prelude::*;
use std::rc::Rc;
use crate::api::exception::Exception;
use crate::api::value::{spec_frame, JlValue, Value};
use crate::error::Error;

verus! {

/// An argument frame: the references handed to a foreign call, gathered in
/// a small vector whose inline capacity covers the common call arities
/// without a heap allocation.
#[verifier::external_body]
pub struct ArgFrame {
    inner: smallvec::SmallVec<[usize; 8]>,
}

/// What an argument frame holds, in order.
pub uninterp spec fn frame_elems(v: ArgFrame) -> Seq<usize>;

impl ArgFrame {
    /// Relies on smallvec::SmallVec::new: a freshly built vector holds
    /// nothing.
    #[verifier::external_body]
    fn new() -> (r: ArgFrame)
        ensures
            frame_elems(r) == Seq::<usize>::empty(),
    {
        ArgFrame { inner: smallvec::SmallVec::new() }
    }

    /// Relies on smallvec::SmallVec::push: appends one element at the end.
    #[verifier::external_body]
    fn push(&mut self, x: usize)
        ensures
            frame_elems(*final(self)) == frame_elems(*old(self)).push(x),
    {
        self.inner.push(x)
    }

    /// Relies on smallvec::SmallVec::as_slice: the elements held, in order.
    #[verifier::external_body]
    fn as_slice(&self) -> (r: &[usize])
        ensures
            r@ == frame_elems(*self),
    {
        self.inner.as_slice()
    }

    /// The elements held, in order, as a plain vector.
    pub fn to_vec(&self) -> (r: Vec<usize>)
        ensures
            r@ == frame_elems(*self),
    {
        vstd::slice::slice_to_vec(self.as_slice())
    }
}

/// A handle around a guest callable.
#[derive(Debug)]
pub struct Function {
    inner: Rc<usize>,
}

impl Function {
    /// A wrapped reference is never null.
    #[verifier::type_invariant]
    spec fn wrapped_non_null(&self) -> bool {
        self.inner@ != 0
    }
}

impl JlValue for Function {
    closed spec fn addr(&self) -> usize {
        self.inner@
    }

    fn new_unchecked(inner: usize) -> (r: Self) {
        Function { inner: Rc::new(inner) }
    }

    fn new(inner: usize) -> (r: Result<Self, Error>) {
        if inner == 0 {
            Err(Error::NullPointer)
        } else {
            Ok(Self::new_unchecked(inner))
        }
    }

    fn lock(&self) -> (r: Result<usize, Error>)
        ensures
            self.addr() != 0,
    {
        proof {
            use_type_invariant(&*self);
        }
        Ok(*self.inner)
    }

    fn into_inner(self) -> (r: Result<usize, Error>)
        ensures
            self.addr() != 0,
    {
        proof {
            use_type_invariant(&self);
        }
        match Rc::try_unwrap(self.inner) {
            Ok(raw) => Ok(raw),
            Err(_) => Err(Error::ResourceInUse),
        }
    }
}

impl Clone for Function {
    /// A new shared owner of the same wrapped reference.
    fn clone(&self) -> (r: Self)
        ensures
            r.addr() == self.addr(),
    {
        proof {
            use_type_invariant(&*self);
        }
        Function { inner: Rc::clone(&self.inner) }
    }
}

impl Function {
    /// Marshals a call: the callee's reference and the frame holding each
    /// argument's reference, in order.  Every call arity goes to the
    /// dispatch through a frame equal to this one.
    pub fn call_frame(&self, args: &[Value]) -> (r: (usize, ArgFrame))
        ensures
            r.0 == self.addr(),
            frame_elems(r.1) == spec_frame(args@),
    {
        let callee = match self.lock() {
            Ok(a) => a,
            Err(_) => 0,
        };
        let mut frame = ArgFrame::new();
        let n = args.len();
        let mut i: usize = 0;
        while i < n
            invariant
                n == args@.len(),
                i <= n,
                frame_elems(frame) == spec_frame(args@.take(i as int)),
            decreases n - i,
        {
            let a = match args[i].lock() {
                Ok(a) => a,
                Err(_) => 0,
            };
            frame.push(a);
            proof {
                assert(spec_frame(args@.take(i as int + 1)) =~= spec_frame(
                    args@.take(i as int),
                ).push(args@[i as int].addr()));
            }
            i += 1;
        }
        proof {
            assert(args@.take(n as int) =~= args@);
        }
        (callee, frame)
    }
}

/// Completes a foreign call from its outcome: a caught fault short-circuits
/// the return path; a null return without a fault is a call error; anything
/// else is the result, wrapped.
pub fn finish_call(ret: usize, caught: Option<Exception>) -> (r: Result<Value, Error>)
    ensures
        caught matches Some(ex) ==> r == Err::<Value, Error>(Error::UnhandledException(ex)),
        caught is None && ret == 0 ==> r == Err::<Value, Error>(Error::CallError),
        caught is None && ret != 0 ==> (r matches Ok(v) && v.addr() == ret),
{
    match caught {
        Some(ex) => Err(Error::UnhandledException(ex)),
        None => match Value::new(ret) {
            Ok(v) => Ok(v),
            Err(_) => Err(Error::CallError),
        },
    }
}

/// The frames of the fixed call arities are exactly the frames the general
/// call marshals for the same arguments: no arity has a marshalling of its
/// own, and one completion serves them all, so every arity reaches the same
/// dispatch and produces the same result as the equivalent general call.
pub proof fn lemma_arity_frames(a1: Value, a2: Value, a3: Value)
    ensures
        spec_frame(Seq::<Value>::empty()) == Seq::<usize>::empty(),
        spec_frame(seq![a1]) == seq![a1.addr()],
        spec_frame(seq![a1, a2]) == seq![a1.addr(), a2.addr()],
        spec_frame(seq![a1, a2, a3]) == seq![a1.addr(), a2.addr(), a3.addr()],
{
    assert(spec_frame(Seq::<Value>::empty()) =~= Seq::<usize>::empty());
    assert(spec_frame(seq![a1]) =~= seq![a1.addr()]);
    assert(spec_frame(seq![a1, a2]) =~= seq![a1.addr(), a2.addr()]);
    assert(spec_frame(seq![a1, a2, a3]) =~= seq![a1.addr(), a2.addr(), a3.addr()]);
}

} // verus!
