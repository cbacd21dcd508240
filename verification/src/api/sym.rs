//! The symbol handle and the conversions that produce one.

use vstd::prelude::*;
use std::rc::Rc;
use crate::api::value::JlValue;
use crate::error::Error;

verus! {

/// Trait implemented by everything that can stand for an interned guest
/// symbol.  Conversions that need the runtime's interning table live with the
/// caller that owns the runtime; a symbol converts to itself.
pub trait IntoSymbol {
    fn into_symbol(self) -> (r: Result<Symbol, Error>);
}

/// A handle around an interned guest symbol.
#[derive(Debug)]
pub struct Symbol {
    inner: Rc<usize>,
}

impl Symbol {
    /// A wrapped reference is never null.
    #[verifier::type_invariant]
    spec fn wrapped_non_null(&self) -> bool {
        self.inner@ != 0
    }
}

impl JlValue for Symbol {
    closed spec fn addr(&self) -> usize {
        self.inner@
    }

    fn new_unchecked(inner: usize) -> (r: Self) {
        Symbol { inner: Rc::new(inner) }
    }

    fn new(inner: usize) -> (r: Result<Self, Error>) {
        if inner == 0 {
            Err(Error::NullPointer)
        } else {
            Ok(Self::new_unchecked(inner))
        }
    }

    fn lock(&self) -> (r: Result<usize, Error>)
        ensures
            self.addr() != 0,
    {
        proof {
            use_type_invariant(&*self);
        }
        Ok(*self.inner)
    }

    fn into_inner(self) -> (r: Result<usize, Error>)
        ensures
            self.addr() != 0,
    {
        proof {
            use_type_invariant(&self);
        }
        match Rc::try_unwrap(self.inner) {
            Ok(raw) => Ok(raw),
            Err(_) => Err(Error::ResourceInUse),
        }
    }
}

impl Clone for Symbol {
    /// A new shared owner of the same wrapped reference.
    fn clone(&self) -> (r: Self)
        ensures
            r.addr() == self.addr(),
    {
        proof {
            use_type_invariant(&*self);
        }
        Symbol { inner: Rc::clone(&self.inner) }
    }
}

impl IntoSymbol for Symbol {
    /// A symbol stands for itself.
    fn into_symbol(self) -> (r: Result<Symbol, Error>)
        ensures
            r == Ok::<Symbol, Error>(self),
    {
        Ok(self)
    }
}

/// Wraps what the runtime's symbol interning handed back: a null reference
/// means the name was not a valid symbol.
pub fn finish_symbol(raw: usize) -> (r: Result<Symbol, Error>)
    ensures
        raw == 0 ==> r == Err::<Symbol, Error>(Error::InvalidSymbol),
        raw != 0 ==> (r matches Ok(s) && s.addr() == raw),
{
    match Symbol::new(raw) {
        Ok(s) => Ok(s),
        Err(_) => Err(Error::InvalidSymbol),
    }
}

} // verus!
