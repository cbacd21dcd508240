//! The module handle: a namespace of the guest runtime.

use vstd::prelude::*;
use std::rc::Rc;
use crate::api::value::JlValue;
use crate::error::Error;

verus! {

/// A handle around one of the runtime's namespaces.
#[derive(Debug)]
pub struct Module {
    inner: Rc<usize>,
}

impl Module {
    /// A wrapped reference is never null.
    #[verifier::type_invariant]
    spec fn wrapped_non_null(&self) -> bool {
        self.inner@ != 0
    }
}

impl JlValue for Module {
    closed spec fn addr(&self) -> usize {
        self.inner@
    }

    fn new_unchecked(inner: usize) -> (r: Self) {
        Module { inner: Rc::new(inner) }
    }

    fn new(inner: usize) -> (r: Result<Self, Error>) {
        if inner == 0 {
            Err(Error::NullPointer)
        } else {
            Ok(Self::new_unchecked(inner))
        }
    }

    fn lock(&self) -> (r: Result<usize, Error>)
        ensures
            self.addr() != 0,
    {
        proof {
            use_type_invariant(&*self);
        }
        Ok(*self.inner)
    }

    fn into_inner(self) -> (r: Result<usize, Error>)
        ensures
            self.addr() != 0,
    {
        proof {
            use_type_invariant(&self);
        }
        match Rc::try_unwrap(self.inner) {
            Ok(raw) => Ok(raw),
            Err(_) => Err(Error::ResourceInUse),
        }
    }
}

impl Clone for Module {
    /// A new shared owner of the same wrapped reference.
    fn clone(&self) -> (r: Self)
        ensures
            r.addr() == self.addr(),
    {
        proof {
            use_type_invariant(&*self);
        }
        Module { inner: Rc::clone(&self.inner) }
    }
}

} // verus!
