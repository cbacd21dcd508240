//! The generic wrapping protocol for foreign runtime values: shared,
//! checked handles around raw object references, and the typed unboxing
//! decisions of the conversion layer.

use vstd::prelude::*;
use std::rc::Rc;
use crate::error::Error;

verus! {

/// The protocol every handle type offers: checked and unchecked construction
/// from a raw reference, exclusive access to the wrapped reference, consuming
/// the last shared owner, and reinterpreting the same reference under another
/// handle type.
///
/// A wrapped reference is never null: the checked constructor rejects null,
/// and the unchecked one demands non-null from its caller.
pub trait JlValue: Sized {
    /// The wrapped foreign reference, as the address word it stands for.
    spec fn addr(&self) -> usize;

    /// Wraps a reference the caller guarantees to be non-null, such as one
    /// read from the runtime's own fixed global slots.
    fn new_unchecked(inner: usize) -> (r: Self)
        requires
            inner != 0,
        ensures
            r.addr() == inner,
    ;

    /// Wraps a reference after validating that it is not null.
    fn new(inner: usize) -> (r: Result<Self, Error>)
        ensures
            inner == 0 ==> (r matches Err(e) && e == Error::NullPointer),
            inner != 0 ==> (r matches Ok(v) && v.addr() == inner),
    ;

    /// Acquires the exclusive guard and hands out the wrapped reference.
    /// The guard is released before this returns, so no host code ever runs
    /// while it is held; the poisoned-guard failure therefore cannot arise
    /// from within this crate.
    fn lock(&self) -> (r: Result<usize, Error>)
        ensures
            r == Ok::<usize, Error>(self.addr()),
    ;

    /// Takes sole ownership of the wrapped reference, failing while other
    /// shared owners remain.
    fn into_inner(self) -> (r: Result<usize, Error>)
        ensures
            r matches Ok(a) ==> a == self.addr(),
            r matches Err(e) ==> e == Error::ResourceInUse,
    ;

}

/// Reinterprets a handle's reference under another handle type.  The
/// reference is transferred, not copied: the operation fails while other
/// owners still share it.  That the dynamic type really matches is the
/// caller's obligation; no runtime check is made here.
pub fn from_value<U: JlValue, T: JlValue>(val: U) -> (r: Result<T, Error>)
    ensures
        r matches Ok(v) ==> v.addr() == val.addr() && val.addr() != 0,
        r matches Err(e) ==> e == Error::ResourceInUse || (e == Error::NullPointer && val.addr()
            == 0),
{
    match val.into_inner() {
        Ok(raw) => T::new(raw),
        Err(e) => Err(e),
    }
}

/// Consumes a handle and hands its reference to another handle type; the
/// same trust boundary as [`from_value`].
pub fn into_value<T: JlValue, U: JlValue>(val: T) -> (r: Result<U, Error>)
    ensures
        r matches Ok(v) ==> v.addr() == val.addr() && val.addr() != 0,
        r matches Err(e) ==> e == Error::ResourceInUse || (e == Error::NullPointer && val.addr()
            == 0),
{
    from_value(val)
}

/// A handle around an arbitrary guest value.
#[derive(Debug)]
pub struct Value {
    inner: Rc<usize>,
}

impl Value {
    /// A wrapped reference is never null.
    #[verifier::type_invariant]
    spec fn wrapped_non_null(&self) -> bool {
        self.inner@ != 0
    }
}

impl Value {
    /// Applies `f` to the wrapped reference.
    pub fn map<T, F: FnOnce(usize) -> T>(&self, f: F) -> (r: Result<T, Error>)
        requires
            f.requires((self.addr(),)),
        ensures
            r matches Ok(t) && f.ensures((self.addr(),), t),
    {
        match self.lock() {
            Ok(raw) => Ok(f(raw)),
            Err(e) => Err(e),
        }
    }

    /// Applies `f` to the wrapped reference; `optb` would be returned if the
    /// guard were poisoned, which cannot happen from within this crate.
    pub fn map_or<T, F: FnOnce(usize) -> T>(&self, f: F, optb: T) -> (r: T)
        requires
            f.requires((self.addr(),)),
        ensures
            f.ensures((self.addr(),), r),
    {
        match self.lock() {
            Ok(raw) => f(raw),
            Err(_) => optb,
        }
    }

    /// Applies `f` to the wrapped reference; `op` would map the failure if
    /// the guard were poisoned, which cannot happen from within this crate.
    pub fn map_or_else<T, F: FnOnce(usize) -> T, O: FnOnce(Error) -> T>(&self, f: F, op: O) -> (r:
        T)
        requires
            f.requires((self.addr(),)),
        ensures
            f.ensures((self.addr(),), r),
    {
        match self.lock() {
            Ok(raw) => f(raw),
            Err(e) => op(e),
        }
    }

    /// Reports whether the exclusive guard is healthy.  No host code ever
    /// runs while the guard is held, so it is never poisoned.
    pub fn is_ok(&self) -> (r: bool)
        ensures
            r,
    {
        true
    }
}

impl JlValue for Value {
    closed spec fn addr(&self) -> usize {
        self.inner@
    }

    fn new_unchecked(inner: usize) -> (r: Self) {
        Value { inner: Rc::new(inner) }
    }

    fn new(inner: usize) -> (r: Result<Self, Error>) {
        if inner == 0 {
            Err(Error::NullPointer)
        } else {
            Ok(Self::new_unchecked(inner))
        }
    }

    fn lock(&self) -> (r: Result<usize, Error>)
        ensures
            self.addr() != 0,
    {
        proof {
            use_type_invariant(&*self);
        }
        Ok(*self.inner)
    }

    fn into_inner(self) -> (r: Result<usize, Error>)
        ensures
            self.addr() != 0,
    {
        proof {
            use_type_invariant(&self);
        }
        match Rc::try_unwrap(self.inner) {
            Ok(raw) => Ok(raw),
            Err(_) => Err(Error::ResourceInUse),
        }
    }
}

impl Clone for Value {
    /// A new shared owner of the same wrapped reference.
    fn clone(&self) -> (r: Self)
        ensures
            r.addr() == self.addr(),
    {
        proof {
            use_type_invariant(&*self);
        }
        Value { inner: Rc::clone(&self.inner) }
    }
}

/// A handle around a parsed but unevaluated guest expression.
#[derive(Debug)]
pub struct Expr {
    inner: Rc<usize>,
}

impl Expr {
    /// A wrapped reference is never null.
    #[verifier::type_invariant]
    spec fn wrapped_non_null(&self) -> bool {
        self.inner@ != 0
    }
}

impl JlValue for Expr {
    closed spec fn addr(&self) -> usize {
        self.inner@
    }

    fn new_unchecked(inner: usize) -> (r: Self) {
        Expr { inner: Rc::new(inner) }
    }

    fn new(inner: usize) -> (r: Result<Self, Error>) {
        if inner == 0 {
            Err(Error::NullPointer)
        } else {
            Ok(Self::new_unchecked(inner))
        }
    }

    fn lock(&self) -> (r: Result<usize, Error>)
        ensures
            self.addr() != 0,
    {
        proof {
            use_type_invariant(&*self);
        }
        Ok(*self.inner)
    }

    fn into_inner(self) -> (r: Result<usize, Error>)
        ensures
            self.addr() != 0,
    {
        proof {
            use_type_invariant(&self);
        }
        match Rc::try_unwrap(self.inner) {
            Ok(raw) => Ok(raw),
            Err(_) => Err(Error::ResourceInUse),
        }
    }
}

impl Clone for Expr {
    /// A new shared owner of the same wrapped reference.
    fn clone(&self) -> (r: Self)
        ensures
            r.addr() == self.addr(),
    {
        proof {
            use_type_invariant(&*self);
        }
        Expr { inner: Rc::clone(&self.inner) }
    }
}

/// Resolves the index the runtime's field-name lookup handed back: a negative
/// answer means the name did not resolve and is reported as an invalid
/// symbol.
pub fn resolve_field_index(idx: i32) -> (r: Result<usize, Error>)
    ensures
        idx < 0 ==> r == Err::<usize, Error>(Error::InvalidSymbol),
        idx >= 0 ==> r == Ok::<usize, Error>(idx as usize),
{
    if idx < 0 {
        Err(Error::InvalidSymbol)
    } else {
        Ok(idx as usize)
    }
}

/// Accepts an unboxed payload only when the wrapped value really had the
/// expected dynamic type; anything else is an invalid unbox, never garbage.
pub fn unbox_checked<T>(is_expected_type: bool, payload: T) -> (r: Result<T, Error>)
    ensures
        is_expected_type ==> r == Ok::<T, Error>(payload),
        !is_expected_type ==> (r matches Err(e) && e == Error::InvalidUnbox),
{
    if is_expected_type {
        Ok(payload)
    } else {
        Err(Error::InvalidUnbox)
    }
}

/// Accepts a boolean payload, stored by the runtime as a signed byte, only
/// when the wrapped value really was a boolean.
pub fn unbox_bool(is_bool: bool, payload: i8) -> (r: Result<bool, Error>)
    ensures
        is_bool ==> r == Ok::<bool, Error>(payload != 0),
        !is_bool ==> (r matches Err(e) && e == Error::InvalidUnbox),
{
    if is_bool {
        Ok(payload != 0)
    } else {
        Err(Error::InvalidUnbox)
    }
}

/// The addresses of a sequence of handles, in order.
pub open spec fn spec_frame<T: JlValue>(vals: Seq<T>) -> Seq<usize> {
    vals.map_values(|v: T| v.addr())
}

/// Collects the wrapped references of `vals`, in order: the argument frame
/// handed to a foreign entry point.
pub fn lock_frame<T: JlValue>(vals: &[T]) -> (r: Vec<usize>)
    ensures
        r@ == spec_frame(vals@),
{
    let mut out: Vec<usize> = Vec::new();
    let n = vals.len();
    let mut i: usize = 0;
    while i < n
        invariant
            n == vals@.len(),
            i <= n,
            out@ == spec_frame(vals@.take(i as int)),
        decreases n - i,
    {
        let a = match vals[i].lock() {
            Ok(a) => a,
            Err(_) => 0,
        };
        out.push(a);
        proof {
            assert(spec_frame(vals@.take(i as int + 1)) =~= spec_frame(
                vals@.take(i as int),
            ).push(vals@[i as int].addr()));
        }
        i += 1;
    }
    proof {
        assert(vals@.take(n as int) =~= vals@);
    }
    out
}

} // verus!
