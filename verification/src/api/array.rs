//! Handles for the guest runtime's array and simple-vector objects.

use vstd::prelude::*;
use std::rc::Rc;
use crate::api::value::JlValue;
use crate::error::Error;

verus! {

/// A handle around a guest array.
#[derive(Debug)]
pub struct Array {
    inner: Rc<usize>,
}

impl Array {
    /// A wrapped reference is never null.
    #[verifier::type_invariant]
    spec fn wrapped_non_null(&self) -> bool {
        self.inner@ != 0
    }
}

impl JlValue for Array {
    closed spec fn addr(&self) -> usize {
        self.inner@
    }

    fn new_unchecked(inner: usize) -> (r: Self) {
        Array { inner: Rc::new(inner) }
    }

    fn new(inner: usize) -> (r: Result<Self, Error>) {
        if inner == 0 {
            Err(Error::NullPointer)
        } else {
            Ok(Self::new_unchecked(inner))
        }
    }

    fn lock(&self) -> (r: Result<usize, Error>)
        ensures
            self.addr() != 0,
    {
        proof {
            use_type_invariant(&*self);
        }
        Ok(*self.inner)
    }

    fn into_inner(self) -> (r: Result<usize, Error>)
        ensures
            self.addr() != 0,
    {
        proof {
            use_type_invariant(&self);
        }
        match Rc::try_unwrap(self.inner) {
            Ok(raw) => Ok(raw),
            Err(_) => Err(Error::ResourceInUse),
        }
    }
}

impl Clone for Array {
    /// A new shared owner of the same wrapped reference.
    fn clone(&self) -> (r: Self)
        ensures
            r.addr() == self.addr(),
    {
        proof {
            use_type_invariant(&*self);
        }
        Array { inner: Rc::clone(&self.inner) }
    }
}

/// A handle around a guest simple vector.
#[derive(Debug)]
pub struct Svec {
    inner: Rc<usize>,
}

impl Svec {
    /// A wrapped reference is never null.
    #[verifier::type_invariant]
    spec fn wrapped_non_null(&self) -> bool {
        self.inner@ != 0
    }
}

impl JlValue for Svec {
    closed spec fn addr(&self) -> usize {
        self.inner@
    }

    fn new_unchecked(inner: usize) -> (r: Self) {
        Svec { inner: Rc::new(inner) }
    }

    fn new(inner: usize) -> (r: Result<Self, Error>) {
        if inner == 0 {
            Err(Error::NullPointer)
        } else {
            Ok(Self::new_unchecked(inner))
        }
    }

    fn lock(&self) -> (r: Result<usize, Error>)
        ensures
            self.addr() != 0,
    {
        proof {
            use_type_invariant(&*self);
        }
        Ok(*self.inner)
    }

    fn into_inner(self) -> (r: Result<usize, Error>)
        ensures
            self.addr() != 0,
    {
        proof {
            use_type_invariant(&self);
        }
        match Rc::try_unwrap(self.inner) {
            Ok(raw) => Ok(raw),
            Err(_) => Err(Error::ResourceInUse),
        }
    }
}

impl Clone for Svec {
    /// A new shared owner of the same wrapped reference.
    fn clone(&self) -> (r: Self)
        ensures
            r.addr() == self.addr(),
    {
        proof {
            use_type_invariant(&*self);
        }
        Svec { inner: Rc::clone(&self.inner) }
    }
}

} // verus!
