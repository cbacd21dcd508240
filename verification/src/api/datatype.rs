//! Handles for the guest runtime's type objects, and the builder that
//! gathers what a new type's construction needs.

use vstd::prelude::*;
use std::rc::Rc;
use crate::api::array::Svec;
use crate::api::sym::IntoSymbol;
use crate::api::value::JlValue;
use crate::error::Error;

verus! {

/// The ways a type's trailing parameter may accept a variable number of
/// arguments.
#[derive(Clone, Copy, Hash, PartialEq, Eq, Structural, Debug)]
pub enum VarargKind {
    Absent,
    Int,
    Bound,
    Unbound,
}

impl VarargKind {
    /// Decodes the runtime's vararg-kind code; codes above 3 are not used.
    pub fn try_from(kind: u32) -> (r: Result<VarargKind, ()>)
        ensures
            kind == 0 ==> r == Ok::<VarargKind, ()>(VarargKind::Absent),
            kind == 1 ==> r == Ok::<VarargKind, ()>(VarargKind::Int),
            kind == 2 ==> r == Ok::<VarargKind, ()>(VarargKind::Bound),
            kind == 3 ==> r == Ok::<VarargKind, ()>(VarargKind::Unbound),
            kind > 3 ==> r == Err::<VarargKind, ()>(()),
    {
        match kind {
            0 => Ok(VarargKind::Absent),
            1 => Ok(VarargKind::Int),
            2 => Ok(VarargKind::Bound),
            3 => Ok(VarargKind::Unbound),
            _ => Err(()),
        }
    }
}

/// A handle around a guest type of any kind.
#[derive(Debug)]
pub struct Type {
    inner: Rc<usize>,
}

impl Type {
    /// A wrapped reference is never null.
    #[verifier::type_invariant]
    spec fn wrapped_non_null(&self) -> bool {
        self.inner@ != 0
    }
}

impl JlValue for Type {
    closed spec fn addr(&self) -> usize {
        self.inner@
    }

    fn new_unchecked(inner: usize) -> (r: Self) {
        Type { inner: Rc::new(inner) }
    }

    fn new(inner: usize) -> (r: Result<Self, Error>) {
        if inner == 0 {
            Err(Error::NullPointer)
        } else {
            Ok(Self::new_unchecked(inner))
        }
    }

    fn lock(&self) -> (r: Result<usize, Error>)
        ensures
            self.addr() != 0,
    {
        proof {
            use_type_invariant(&*self);
        }
        Ok(*self.inner)
    }

    fn into_inner(self) -> (r: Result<usize, Error>)
        ensures
            self.addr() != 0,
    {
        proof {
            use_type_invariant(&self);
        }
        match Rc::try_unwrap(self.inner) {
            Ok(raw) => Ok(raw),
            Err(_) => Err(Error::ResourceInUse),
        }
    }
}

impl Clone for Type {
    /// A new shared owner of the same wrapped reference.
    fn clone(&self) -> (r: Self)
        ensures
            r.addr() == self.addr(),
    {
        proof {
            use_type_invariant(&*self);
        }
        Type { inner: Rc::clone(&self.inner) }
    }
}

impl Type {
    /// Applies `f` to the wrapped reference.
    pub fn map<T, F: FnOnce(usize) -> T>(&self, f: F) -> (r: Result<T, Error>)
        requires
            f.requires((self.addr(),)),
        ensures
            r matches Ok(t) && f.ensures((self.addr(),), t),
    {
        match self.lock() {
            Ok(raw) => Ok(f(raw)),
            Err(e) => Err(e),
        }
    }

    /// Applies `f` to the wrapped reference; `optb` would be returned if the
    /// guard were poisoned, which cannot happen from within this crate.
    pub fn map_or<T, F: FnOnce(usize) -> T>(&self, f: F, optb: T) -> (r: T)
        requires
            f.requires((self.addr(),)),
        ensures
            f.ensures((self.addr(),), r),
    {
        match self.lock() {
            Ok(raw) => f(raw),
            Err(_) => optb,
        }
    }

    /// Applies `f` to the wrapped reference; `op` would map the failure if
    /// the guard were poisoned, which cannot happen from within this crate.
    pub fn map_or_else<T, F: FnOnce(usize) -> T, O: FnOnce(Error) -> T>(&self, f: F, op: O) -> (r:
        T)
        requires
            f.requires((self.addr(),)),
        ensures
            f.ensures((self.addr(),), r),
    {
        match self.lock() {
            Ok(raw) => f(raw),
            Err(e) => op(e),
        }
    }

    /// Reports whether the exclusive guard is healthy.  No host code ever
    /// runs while the guard is held, so it is never poisoned.
    pub fn is_ok(&self) -> (r: bool)
        ensures
            r,
    {
        true
    }
}

/// A handle around a concrete guest datatype.
#[derive(Debug)]
pub struct Datatype {
    inner: Rc<usize>,
}

impl Datatype {
    /// A wrapped reference is never null.
    #[verifier::type_invariant]
    spec fn wrapped_non_null(&self) -> bool {
        self.inner@ != 0
    }
}

impl JlValue for Datatype {
    closed spec fn addr(&self) -> usize {
        self.inner@
    }

    fn new_unchecked(inner: usize) -> (r: Self) {
        Datatype { inner: Rc::new(inner) }
    }

    fn new(inner: usize) -> (r: Result<Self, Error>) {
        if inner == 0 {
            Err(Error::NullPointer)
        } else {
            Ok(Self::new_unchecked(inner))
        }
    }

    fn lock(&self) -> (r: Result<usize, Error>)
        ensures
            self.addr() != 0,
    {
        proof {
            use_type_invariant(&*self);
        }
        Ok(*self.inner)
    }

    fn into_inner(self) -> (r: Result<usize, Error>)
        ensures
            self.addr() != 0,
    {
        proof {
            use_type_invariant(&self);
        }
        match Rc::try_unwrap(self.inner) {
            Ok(raw) => Ok(raw),
            Err(_) => Err(Error::ResourceInUse),
        }
    }
}

impl Clone for Datatype {
    /// A new shared owner of the same wrapped reference.
    fn clone(&self) -> (r: Self)
        ensures
            r.addr() == self.addr(),
    {
        proof {
            use_type_invariant(&*self);
        }
        Datatype { inner: Rc::clone(&self.inner) }
    }
}

/// A handle around a guest union type.
#[derive(Debug)]
pub struct Union {
    inner: Rc<usize>,
}

impl Union {
    /// A wrapped reference is never null.
    #[verifier::type_invariant]
    spec fn wrapped_non_null(&self) -> bool {
        self.inner@ != 0
    }
}

impl JlValue for Union {
    closed spec fn addr(&self) -> usize {
        self.inner@
    }

    fn new_unchecked(inner: usize) -> (r: Self) {
        Union { inner: Rc::new(inner) }
    }

    fn new(inner: usize) -> (r: Result<Self, Error>) {
        if inner == 0 {
            Err(Error::NullPointer)
        } else {
            Ok(Self::new_unchecked(inner))
        }
    }

    fn lock(&self) -> (r: Result<usize, Error>)
        ensures
            self.addr() != 0,
    {
        proof {
            use_type_invariant(&*self);
        }
        Ok(*self.inner)
    }

    fn into_inner(self) -> (r: Result<usize, Error>)
        ensures
            self.addr() != 0,
    {
        proof {
            use_type_invariant(&self);
        }
        match Rc::try_unwrap(self.inner) {
            Ok(raw) => Ok(raw),
            Err(_) => Err(Error::ResourceInUse),
        }
    }
}

impl Clone for Union {
    /// A new shared owner of the same wrapped reference.
    fn clone(&self) -> (r: Self)
        ensures
            r.addr() == self.addr(),
    {
        proof {
            use_type_invariant(&*self);
        }
        Union { inner: Rc::clone(&self.inner) }
    }
}

/// A handle around a guest iterated-union type.
#[derive(Debug)]
pub struct UnionAll {
    inner: Rc<usize>,
}

impl UnionAll {
    /// A wrapped reference is never null.
    #[verifier::type_invariant]
    spec fn wrapped_non_null(&self) -> bool {
        self.inner@ != 0
    }
}

impl JlValue for UnionAll {
    closed spec fn addr(&self) -> usize {
        self.inner@
    }

    fn new_unchecked(inner: usize) -> (r: Self) {
        UnionAll { inner: Rc::new(inner) }
    }

    fn new(inner: usize) -> (r: Result<Self, Error>) {
        if inner == 0 {
            Err(Error::NullPointer)
        } else {
            Ok(Self::new_unchecked(inner))
        }
    }

    fn lock(&self) -> (r: Result<usize, Error>)
        ensures
            self.addr() != 0,
    {
        proof {
            use_type_invariant(&*self);
        }
        Ok(*self.inner)
    }

    fn into_inner(self) -> (r: Result<usize, Error>)
        ensures
            self.addr() != 0,
    {
        proof {
            use_type_invariant(&self);
        }
        match Rc::try_unwrap(self.inner) {
            Ok(raw) => Ok(raw),
            Err(_) => Err(Error::ResourceInUse),
        }
    }
}

impl Clone for UnionAll {
    /// A new shared owner of the same wrapped reference.
    fn clone(&self) -> (r: Self)
        ensures
            r.addr() == self.addr(),
    {
        proof {
            use_type_invariant(&*self);
        }
        UnionAll { inner: Rc::clone(&self.inner) }
    }
}

/// A handle around a guest tuple type.
#[derive(Debug)]
pub struct Tuple {
    inner: Rc<usize>,
}

impl Tuple {
    /// A wrapped reference is never null.
    #[verifier::type_invariant]
    spec fn wrapped_non_null(&self) -> bool {
        self.inner@ != 0
    }
}

impl JlValue for Tuple {
    closed spec fn addr(&self) -> usize {
        self.inner@
    }

    fn new_unchecked(inner: usize) -> (r: Self) {
        Tuple { inner: Rc::new(inner) }
    }

    fn new(inner: usize) -> (r: Result<Self, Error>) {
        if inner == 0 {
            Err(Error::NullPointer)
        } else {
            Ok(Self::new_unchecked(inner))
        }
    }

    fn lock(&self) -> (r: Result<usize, Error>)
        ensures
            self.addr() != 0,
    {
        proof {
            use_type_invariant(&*self);
        }
        Ok(*self.inner)
    }

    fn into_inner(self) -> (r: Result<usize, Error>)
        ensures
            self.addr() != 0,
    {
        proof {
            use_type_invariant(&self);
        }
        match Rc::try_unwrap(self.inner) {
            Ok(raw) => Ok(raw),
            Err(_) => Err(Error::ResourceInUse),
        }
    }
}

impl Clone for Tuple {
    /// A new shared owner of the same wrapped reference.
    fn clone(&self) -> (r: Self)
        ensures
            r.addr() == self.addr(),
    {
        proof {
            use_type_invariant(&*self);
        }
        Tuple { inner: Rc::clone(&self.inner) }
    }
}

/// Gathers what constructing a new primitive, abstract or compound guest
/// type needs, recording the first failure instead of failing fast.  The
/// references that seed it — the root supertype and the empty parameter
/// list — are the runtime's own fixed globals and are handed in by the
/// caller that owns the runtime.
pub struct TypeBuilder {
    /// The new type's name symbol; null until set.
    pub name: usize,
    /// The supertype reference.
    pub supertype: usize,
    /// The type-parameter list reference.
    pub params: usize,
    /// The field-name list reference.
    pub fnames: usize,
    /// The field-type list reference.
    pub ftypes: usize,
    /// Bit width of a primitive type; a multiple of eight.
    pub nbits: usize,
    /// Whether the type is abstract.
    pub abstrac: bool,
    /// Whether the type's instances can be written.
    pub mutable: bool,
    /// Whether construction must initialize every field.
    pub ninitialized: bool,
    /// Whether the type is a primitive.
    pub primitive: bool,
    /// The first failure recorded while gathering, if any.
    pub err: Option<Error>,
}

impl TypeBuilder {
    /// A fresh builder: no name, the root supertype, empty lists, and every
    /// flag off.
    pub fn new(any_type: &Datatype, empty_svec: &Svec) -> (r: Self)
        ensures
            r == (TypeBuilder {
                name: 0usize,
                supertype: any_type.addr(),
                params: empty_svec.addr(),
                fnames: empty_svec.addr(),
                ftypes: empty_svec.addr(),
                nbits: 0usize,
                abstrac: false,
                mutable: false,
                ninitialized: false,
                primitive: false,
                err: None::<Error>,
            }),
    {
        let supertype = match any_type.lock() {
            Ok(a) => a,
            Err(_) => 0,
        };
        let empty = match empty_svec.lock() {
            Ok(a) => a,
            Err(_) => 0,
        };
        TypeBuilder {
            name: 0,
            supertype,
            params: empty,
            fnames: empty,
            ftypes: empty,
            nbits: 0,
            abstrac: false,
            mutable: false,
            ninitialized: false,
            primitive: false,
            err: None,
        }
    }

    /// The first recorded failure, if any occurred.
    pub fn err(&self) -> (r: Option<&Error>)
        ensures
            r is Some <==> self.err is Some,
    {
        self.err.as_ref()
    }

    /// Whether any failure was recorded.
    pub fn is_err(&self) -> (r: bool)
        ensures
            r == (self.err is Some),
    {
        self.err.is_some()
    }

    /// Sets the name from anything that can stand for a symbol, recording
    /// the conversion's failure if it has one; nothing else changes.
    pub fn name<S: IntoSymbol>(self, name: S) -> (r: Self)
        ensures
            r.supertype == self.supertype,
            r.params == self.params,
            r.fnames == self.fnames,
            r.ftypes == self.ftypes,
            r.nbits == self.nbits,
            r.abstrac == self.abstrac,
            r.mutable == self.mutable,
            r.ninitialized == self.ninitialized,
            r.primitive == self.primitive,
    {
        let mut this = self;
        let sym = match name.into_symbol() {
            Ok(sym) => sym,
            Err(err) => {
                this.err = Some(err);
                return this;
            },
        };
        match sym.into_inner() {
            Ok(raw) => {
                this.name = raw;
            },
            Err(err) => {
                this.err = Some(err);
            },
        }
        this
    }

    /// Sets the supertype; it must be an abstract type.
    pub fn supertype(self, supertype: &Datatype) -> (r: Self)
        ensures
            r == (TypeBuilder { supertype: supertype.addr(), ..self }),
    {
        let mut this = self;
        this.supertype = match supertype.lock() {
            Ok(a) => a,
            Err(_) => 0,
        };
        this
    }

    /// Sets the type-parameter list.
    pub fn params(self, params: &Svec) -> (r: Self)
        ensures
            r == (TypeBuilder { params: params.addr(), ..self }),
    {
        let mut this = self;
        this.params = match params.lock() {
            Ok(a) => a,
            Err(_) => 0,
        };
        this
    }

    /// Sets the field-name list.
    pub fn fnames(self, fnames: &Svec) -> (r: Self)
        ensures
            r == (TypeBuilder { fnames: fnames.addr(), ..self }),
    {
        let mut this = self;
        this.fnames = match fnames.lock() {
            Ok(a) => a,
            Err(_) => 0,
        };
        this
    }

    /// Sets the field-type list.
    pub fn ftypes(self, ftypes: &Svec) -> (r: Self)
        ensures
            r == (TypeBuilder { ftypes: ftypes.addr(), ..self }),
    {
        let mut this = self;
        this.ftypes = match ftypes.lock() {
            Ok(a) => a,
            Err(_) => 0,
        };
        this
    }

    /// Sets the bit width of a primitive type; must be a multiple of eight.
    pub fn nbits(self, nbits: usize) -> (r: Self)
        ensures
            r == (TypeBuilder { nbits, ..self }),
    {
        let mut this = self;
        this.nbits = nbits;
        this
    }

    /// Sets whether the type is abstract.
    pub fn abstrac(self, abstrac: bool) -> (r: Self)
        ensures
            r == (TypeBuilder { abstrac, ..self }),
    {
        let mut this = self;
        this.abstrac = abstrac;
        this
    }

    /// Sets whether the type's instances can be written.
    pub fn mutable(self, mutable: bool) -> (r: Self)
        ensures
            r == (TypeBuilder { mutable, ..self }),
    {
        let mut this = self;
        this.mutable = mutable;
        this
    }

    /// Sets whether construction must initialize every field.
    pub fn ninitialized(self, ninitialized: bool) -> (r: Self)
        ensures
            r == (TypeBuilder { ninitialized, ..self }),
    {
        let mut this = self;
        this.ninitialized = ninitialized;
        this
    }

    /// Sets whether the type is a primitive.
    pub fn primitive(self, primitive: bool) -> (r: Self)
        ensures
            r == (TypeBuilder { primitive, ..self }),
    {
        let mut this = self;
        this.primitive = primitive;
        this
    }
}

} // verus!
