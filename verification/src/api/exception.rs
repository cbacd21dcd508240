//! The exception bridge: classifies guest faults into a fixed taxonomy by
//! their runtime type name, and carries each fault's underlying value in a
//! handle.

use vstd::prelude::*;
use vstd::string::StrSliceExecFns;
use crate::api::value::{JlValue, Value};
use crate::error::Error;

verus! {

/// The closed set of guest fault categories, used in contracts to name what
/// an [`Exception`] was classified as.
pub enum ExceptionKind {
    Argument,
    Bounds,
    Composite,
    Divide,
    Domain,
    EOF,
    Error,
    Inexact,
    Init,
    Interrupt,
    InvalidState,
    Key,
    Load,
    OutOfMemory,
    ReadOnlyMemory,
    Remote,
    Method,
    Overflow,
    Parse,
    System,
    Type,
    UndefRef,
    UndefVar,
    Unicode,
    Unknown,
}

/// A classified guest fault, each variant wrapping the fault object itself.
#[derive(Debug)]
pub enum Exception {
    /// The parameters to a function call do not match a valid signature.
    Argument(Value),
    /// Attempt to access an index out of bounds.
    Bounds(Value),
    /// Several exceptions gathered into one.
    Composite(Value),
    /// Divide by zero.
    Divide(Value),
    /// The argument is outside of the valid domain.
    Domain(Value),
    /// No more data is available from a file or stream.
    EOF(Value),
    /// A generic error occurred.
    Error(Value),
    /// A type conversion cannot be done exactly.
    Inexact(Value),
    /// An error occurred while running a module's initializer.
    Init(Value),
    /// The process was stopped by a terminal interrupt.
    Interrupt(Value),
    /// The program reached an invalid state.
    InvalidState(Value),
    /// A key does not exist in an associative or set-like object.
    Key(Value),
    /// An error occurred while loading a file.
    Load(Value),
    /// An operation allocated too much memory.
    OutOfMemory(Value),
    /// An operation tried to write to read-only memory.
    ReadOnlyMemory(Value),
    /// A remote exception occurred.
    Remote(Value),
    /// No method with the required type signature exists.
    Method(Value),
    /// The result of an expression is too large.
    Overflow(Value),
    /// The expression could not be parsed.
    Parse(Value),
    /// A system call failed.
    System(Value),
    /// A type assertion failed.
    Type(Value),
    /// The item or field is not defined.
    UndefRef(Value),
    /// The symbol is not defined in the current scope.
    UndefVar(Value),
    /// A byte array does not hold valid unicode.
    Unicode(Value),
    /// An unrecognized exception type.
    Unknown(Value),
}

/// The taxonomy entry a guest type name classifies into; every unrecognized
/// name degrades to the unknown kind rather than failing.
pub open spec fn kind_of_name(name: Seq<char>) -> ExceptionKind {
    if name == "ArgumentError"@ {
        ExceptionKind::Argument
    } else if name == "BoundsError"@ {
        ExceptionKind::Bounds
    } else if name == "CompositeException"@ {
        ExceptionKind::Composite
    } else if name == "DivideError"@ {
        ExceptionKind::Divide
    } else if name == "DomainError"@ {
        ExceptionKind::Domain
    } else if name == "EOFError"@ {
        ExceptionKind::EOF
    } else if name == "ErrorException"@ {
        ExceptionKind::Error
    } else if name == "InexactError"@ {
        ExceptionKind::Inexact
    } else if name == "InitError"@ {
        ExceptionKind::Init
    } else if name == "InterruptException"@ {
        ExceptionKind::Interrupt
    } else if name == "InvalidStateException"@ {
        ExceptionKind::InvalidState
    } else if name == "KeyError"@ {
        ExceptionKind::Key
    } else if name == "LoadError"@ {
        ExceptionKind::Load
    } else if name == "OutOfMemoryError"@ {
        ExceptionKind::OutOfMemory
    } else if name == "ReadOnlyMemoryError"@ {
        ExceptionKind::ReadOnlyMemory
    } else if name == "RemoteException"@ {
        ExceptionKind::Remote
    } else if name == "MethodError"@ {
        ExceptionKind::Method
    } else if name == "OverflowError"@ {
        ExceptionKind::Overflow
    } else if name == "ParseError"@ {
        ExceptionKind::Parse
    } else if name == "SystemError"@ {
        ExceptionKind::System
    } else if name == "TypeError"@ {
        ExceptionKind::Type
    } else if name == "UndefRefError"@ {
        ExceptionKind::UndefRef
    } else if name == "UndefVarError"@ {
        ExceptionKind::UndefVar
    } else if name == "UnicodeError"@ {
        ExceptionKind::Unicode
    } else {
        ExceptionKind::Unknown
    }
}

/// The exception that wraps `value` under kind `k`.
pub open spec fn with_kind(value: Value, k: ExceptionKind) -> Exception {
    match k {
        ExceptionKind::Argument => Exception::Argument(value),
        ExceptionKind::Bounds => Exception::Bounds(value),
        ExceptionKind::Composite => Exception::Composite(value),
        ExceptionKind::Divide => Exception::Divide(value),
        ExceptionKind::Domain => Exception::Domain(value),
        ExceptionKind::EOF => Exception::EOF(value),
        ExceptionKind::Error => Exception::Error(value),
        ExceptionKind::Inexact => Exception::Inexact(value),
        ExceptionKind::Init => Exception::Init(value),
        ExceptionKind::Interrupt => Exception::Interrupt(value),
        ExceptionKind::InvalidState => Exception::InvalidState(value),
        ExceptionKind::Key => Exception::Key(value),
        ExceptionKind::Load => Exception::Load(value),
        ExceptionKind::OutOfMemory => Exception::OutOfMemory(value),
        ExceptionKind::ReadOnlyMemory => Exception::ReadOnlyMemory(value),
        ExceptionKind::Remote => Exception::Remote(value),
        ExceptionKind::Method => Exception::Method(value),
        ExceptionKind::Overflow => Exception::Overflow(value),
        ExceptionKind::Parse => Exception::Parse(value),
        ExceptionKind::System => Exception::System(value),
        ExceptionKind::Type => Exception::Type(value),
        ExceptionKind::UndefRef => Exception::UndefRef(value),
        ExceptionKind::UndefVar => Exception::UndefVar(value),
        ExceptionKind::Unicode => Exception::Unicode(value),
        ExceptionKind::Unknown => Exception::Unknown(value),
    }
}

/// What classification builds for a fault value whose runtime type has the
/// given name.
pub open spec fn spec_classify(value: Value, name: Seq<char>) -> Exception {
    with_kind(value, kind_of_name(name))
}

/// Character-for-character string equality.
fn str_eq(a: &str, b: &str) -> (r: bool)
    ensures
        r == (a@ == b@),
{
    let alen = a.unicode_len();
    let blen = b.unicode_len();
    if alen != blen {
        return false;
    }
    let mut i: usize = 0;
    while i < alen
        invariant
            alen == a@.len(),
            blen == b@.len(),
            alen == blen,
            i <= alen,
            forall|j: int| 0 <= j < i ==> a@[j] == b@[j],
        decreases alen - i,
    {
        if a.get_char(i) != b.get_char(i) {
            return false;
        }
        i += 1;
    }
    proof {
        assert(a@ =~= b@);
    }
    true
}

impl Exception {
    /// The fault object this exception wraps.
    pub open spec fn spec_inner(&self) -> Value {
        match self {
            Exception::Argument(value) => *value,
            Exception::Bounds(value) => *value,
            Exception::Composite(value) => *value,
            Exception::Divide(value) => *value,
            Exception::Domain(value) => *value,
            Exception::EOF(value) => *value,
            Exception::Error(value) => *value,
            Exception::Inexact(value) => *value,
            Exception::Init(value) => *value,
            Exception::Interrupt(value) => *value,
            Exception::InvalidState(value) => *value,
            Exception::Key(value) => *value,
            Exception::Load(value) => *value,
            Exception::OutOfMemory(value) => *value,
            Exception::ReadOnlyMemory(value) => *value,
            Exception::Remote(value) => *value,
            Exception::Method(value) => *value,
            Exception::Overflow(value) => *value,
            Exception::Parse(value) => *value,
            Exception::System(value) => *value,
            Exception::Type(value) => *value,
            Exception::UndefRef(value) => *value,
            Exception::UndefVar(value) => *value,
            Exception::Unicode(value) => *value,
            Exception::Unknown(value) => *value,
        }
    }

    /// The taxonomy entry this exception was classified as.
    pub open spec fn spec_kind(&self) -> ExceptionKind {
        match self {
            Exception::Argument(_) => ExceptionKind::Argument,
            Exception::Bounds(_) => ExceptionKind::Bounds,
            Exception::Composite(_) => ExceptionKind::Composite,
            Exception::Divide(_) => ExceptionKind::Divide,
            Exception::Domain(_) => ExceptionKind::Domain,
            Exception::EOF(_) => ExceptionKind::EOF,
            Exception::Error(_) => ExceptionKind::Error,
            Exception::Inexact(_) => ExceptionKind::Inexact,
            Exception::Init(_) => ExceptionKind::Init,
            Exception::Interrupt(_) => ExceptionKind::Interrupt,
            Exception::InvalidState(_) => ExceptionKind::InvalidState,
            Exception::Key(_) => ExceptionKind::Key,
            Exception::Load(_) => ExceptionKind::Load,
            Exception::OutOfMemory(_) => ExceptionKind::OutOfMemory,
            Exception::ReadOnlyMemory(_) => ExceptionKind::ReadOnlyMemory,
            Exception::Remote(_) => ExceptionKind::Remote,
            Exception::Method(_) => ExceptionKind::Method,
            Exception::Overflow(_) => ExceptionKind::Overflow,
            Exception::Parse(_) => ExceptionKind::Parse,
            Exception::System(_) => ExceptionKind::System,
            Exception::Type(_) => ExceptionKind::Type,
            Exception::UndefRef(_) => ExceptionKind::UndefRef,
            Exception::UndefVar(_) => ExceptionKind::UndefVar,
            Exception::Unicode(_) => ExceptionKind::Unicode,
            Exception::Unknown(_) => ExceptionKind::Unknown,
        }
    }

    /// The fixed description text of this exception's kind.
    pub open spec fn spec_description(&self) -> Seq<char> {
        match self {
            Exception::Argument(_) => "the parameters to a function call do not match a valid signature"@,
            Exception::Bounds(_) => "attempt to access index out-of-bounds"@,
            Exception::Composite(_) => "composite exception"@,
            Exception::Divide(_) => "divide by zero"@,
            Exception::Domain(_) => "the argument is outside of the valid domain"@,
            Exception::EOF(_) => "no more data is available from file or stream"@,
            Exception::Error(_) => "generic error occurred"@,
            Exception::Inexact(_) => "type conversion cannot be done exactly"@,
            Exception::Init(_) => "an error occurred when running a module's __init__ "@,
            Exception::Interrupt(_) => "the process was stopped by a terminal interrupt (^C)"@,
            Exception::InvalidState(_) => "the program reached an invalid exception"@,
            Exception::Key(_) => "key doesn't exist in Associative- or Set-like object"@,
            Exception::Load(_) => "an error occurred while include-ing, require-ing or using a file"@,
            Exception::OutOfMemory(_) => "operation allocated too much memory"@,
            Exception::ReadOnlyMemory(_) => "operation tried to write to read-only memory"@,
            Exception::Remote(_) => "remote exception occurred"@,
            Exception::Method(_) => "method with the required type signature doesn't exist"@,
            Exception::Overflow(_) => "the result of an expression is too large"@,
            Exception::Parse(_) => "the expression couldn't be parsed as a valid Julia expression"@,
            Exception::System(_) => "system call failed"@,
            Exception::Type(_) => "type assertion failed"@,
            Exception::UndefRef(_) => "the item or field is not defined"@,
            Exception::UndefVar(_) => "symbol is not defined in current scope"@,
            Exception::Unicode(_) => "byte array does not represent a valid unicode string"@,
            Exception::Unknown(_) => "unknown exception"@,
        }
    }

    /// Classifies a fault value by the name of its runtime type: the name is
    /// matched against the fixed taxonomy, and an unrecognized name yields
    /// the unknown kind.
    pub fn with_value(value: Value, typename: &str) -> (r: Result<Exception, Error>)
        ensures
            r == Ok::<Exception, Error>(spec_classify(value, typename@)),
    {
        let ex = if str_eq(typename, "ArgumentError") {
            Exception::Argument(value)
        } else if str_eq(typename, "BoundsError") {
            Exception::Bounds(value)
        } else if str_eq(typename, "CompositeException") {
            Exception::Composite(value)
        } else if str_eq(typename, "DivideError") {
            Exception::Divide(value)
        } else if str_eq(typename, "DomainError") {
            Exception::Domain(value)
        } else if str_eq(typename, "EOFError") {
            Exception::EOF(value)
        } else if str_eq(typename, "ErrorException") {
            Exception::Error(value)
        } else if str_eq(typename, "InexactError") {
            Exception::Inexact(value)
        } else if str_eq(typename, "InitError") {
            Exception::Init(value)
        } else if str_eq(typename, "InterruptException") {
            Exception::Interrupt(value)
        } else if str_eq(typename, "InvalidStateException") {
            Exception::InvalidState(value)
        } else if str_eq(typename, "KeyError") {
            Exception::Key(value)
        } else if str_eq(typename, "LoadError") {
            Exception::Load(value)
        } else if str_eq(typename, "OutOfMemoryError") {
            Exception::OutOfMemory(value)
        } else if str_eq(typename, "ReadOnlyMemoryError") {
            Exception::ReadOnlyMemory(value)
        } else if str_eq(typename, "RemoteException") {
            Exception::Remote(value)
        } else if str_eq(typename, "MethodError") {
            Exception::Method(value)
        } else if str_eq(typename, "OverflowError") {
            Exception::Overflow(value)
        } else if str_eq(typename, "ParseError") {
            Exception::Parse(value)
        } else if str_eq(typename, "SystemError") {
            Exception::System(value)
        } else if str_eq(typename, "TypeError") {
            Exception::Type(value)
        } else if str_eq(typename, "UndefRefError") {
            Exception::UndefRef(value)
        } else if str_eq(typename, "UndefVarError") {
            Exception::UndefVar(value)
        } else if str_eq(typename, "UnicodeError") {
            Exception::Unicode(value)
        } else {
            Exception::Unknown(value)
        };
        Ok(ex)
    }

    /// Wraps and classifies what the runtime's pending-exception slot held
    /// right after a foreign call: nothing when the slot was clear, the
    /// classified fault otherwise.  The caller must already have cleared the
    /// slot, so the same fault is never reported twice.
    pub fn catch(occurred: usize, typename: &str) -> (r: Option<Exception>)
        ensures
            occurred == 0 ==> r is None,
            occurred != 0 ==> (r matches Some(ex) && ex.spec_inner().addr() == occurred
                && ex.spec_kind() == kind_of_name(typename@)),
    {
        match Value::new(occurred) {
            Ok(value) => {
                let ex = match Exception::with_value(value, typename) {
                    Ok(ex) => ex,
                    Err(_) => {
                        return None;
                    },
                };
                proof {
                    lemma_with_kind_shape(ex.spec_inner(), kind_of_name(typename@));
                }
                Some(ex)
            },
            Err(_) => None,
        }
    }

    /// Immutably borrows the wrapped fault object.
    pub fn inner_ref(&self) -> (r: &Value)
        ensures
            *r == self.spec_inner(),
    {
        match self {
            Exception::Argument(value) => value,
            Exception::Bounds(value) => value,
            Exception::Composite(value) => value,
            Exception::Divide(value) => value,
            Exception::Domain(value) => value,
            Exception::EOF(value) => value,
            Exception::Error(value) => value,
            Exception::Inexact(value) => value,
            Exception::Init(value) => value,
            Exception::Interrupt(value) => value,
            Exception::InvalidState(value) => value,
            Exception::Key(value) => value,
            Exception::Load(value) => value,
            Exception::OutOfMemory(value) => value,
            Exception::ReadOnlyMemory(value) => value,
            Exception::Remote(value) => value,
            Exception::Method(value) => value,
            Exception::Overflow(value) => value,
            Exception::Parse(value) => value,
            Exception::System(value) => value,
            Exception::Type(value) => value,
            Exception::UndefRef(value) => value,
            Exception::UndefVar(value) => value,
            Exception::Unicode(value) => value,
            Exception::Unknown(value) => value,
        }
    }

    /// Mutably borrows the wrapped fault object; the classification itself
    /// cannot be changed through the borrow.
    pub fn inner_mut(&mut self) -> (r: &mut Value)
        ensures
            *r == old(self).spec_inner(),
            final(self).spec_inner() == *final(r),
            final(self).spec_kind() == old(self).spec_kind(),
    {
        match self {
            Exception::Argument(value) => value,
            Exception::Bounds(value) => value,
            Exception::Composite(value) => value,
            Exception::Divide(value) => value,
            Exception::Domain(value) => value,
            Exception::EOF(value) => value,
            Exception::Error(value) => value,
            Exception::Inexact(value) => value,
            Exception::Init(value) => value,
            Exception::Interrupt(value) => value,
            Exception::InvalidState(value) => value,
            Exception::Key(value) => value,
            Exception::Load(value) => value,
            Exception::OutOfMemory(value) => value,
            Exception::ReadOnlyMemory(value) => value,
            Exception::Remote(value) => value,
            Exception::Method(value) => value,
            Exception::Overflow(value) => value,
            Exception::Parse(value) => value,
            Exception::System(value) => value,
            Exception::Type(value) => value,
            Exception::UndefRef(value) => value,
            Exception::UndefVar(value) => value,
            Exception::Unicode(value) => value,
            Exception::Unknown(value) => value,
        }
    }

    /// Consumes the exception and returns the wrapped fault object.
    pub fn into_inner(self) -> (r: Value)
        ensures
            r == self.spec_inner(),
    {
        match self {
            Exception::Argument(value) => value,
            Exception::Bounds(value) => value,
            Exception::Composite(value) => value,
            Exception::Divide(value) => value,
            Exception::Domain(value) => value,
            Exception::EOF(value) => value,
            Exception::Error(value) => value,
            Exception::Inexact(value) => value,
            Exception::Init(value) => value,
            Exception::Interrupt(value) => value,
            Exception::InvalidState(value) => value,
            Exception::Key(value) => value,
            Exception::Load(value) => value,
            Exception::OutOfMemory(value) => value,
            Exception::ReadOnlyMemory(value) => value,
            Exception::Remote(value) => value,
            Exception::Method(value) => value,
            Exception::Overflow(value) => value,
            Exception::Parse(value) => value,
            Exception::System(value) => value,
            Exception::Type(value) => value,
            Exception::UndefRef(value) => value,
            Exception::UndefVar(value) => value,
            Exception::Unicode(value) => value,
            Exception::Unknown(value) => value,
        }
    }

    /// The fixed description text of this exception's kind.
    pub fn description(&self) -> (r: &'static str)
        ensures
            r@ == self.spec_description(),
    {
        match self {
            Exception::Argument(_) => "the parameters to a function call do not match a valid signature",
            Exception::Bounds(_) => "attempt to access index out-of-bounds",
            Exception::Composite(_) => "composite exception",
            Exception::Divide(_) => "divide by zero",
            Exception::Domain(_) => "the argument is outside of the valid domain",
            Exception::EOF(_) => "no more data is available from file or stream",
            Exception::Error(_) => "generic error occurred",
            Exception::Inexact(_) => "type conversion cannot be done exactly",
            Exception::Init(_) => "an error occurred when running a module's __init__ ",
            Exception::Interrupt(_) => "the process was stopped by a terminal interrupt (^C)",
            Exception::InvalidState(_) => "the program reached an invalid exception",
            Exception::Key(_) => "key doesn't exist in Associative- or Set-like object",
            Exception::Load(_) => "an error occurred while include-ing, require-ing or using a file",
            Exception::OutOfMemory(_) => "operation allocated too much memory",
            Exception::ReadOnlyMemory(_) => "operation tried to write to read-only memory",
            Exception::Remote(_) => "remote exception occurred",
            Exception::Method(_) => "method with the required type signature doesn't exist",
            Exception::Overflow(_) => "the result of an expression is too large",
            Exception::Parse(_) => "the expression couldn't be parsed as a valid Julia expression",
            Exception::System(_) => "system call failed",
            Exception::Type(_) => "type assertion failed",
            Exception::UndefRef(_) => "the item or field is not defined",
            Exception::UndefVar(_) => "symbol is not defined in current scope",
            Exception::Unicode(_) => "byte array does not represent a valid unicode string",
            Exception::Unknown(_) => "unknown exception",
        }
    }
}

impl Clone for Exception {
    /// A new exception of the same kind sharing the same fault object.
    fn clone(&self) -> (r: Self)
        ensures
            r.spec_kind() == self.spec_kind(),
            r.spec_inner().addr() == self.spec_inner().addr(),
    {
        match self {
            Exception::Argument(value) => Exception::Argument(value.clone()),
            Exception::Bounds(value) => Exception::Bounds(value.clone()),
            Exception::Composite(value) => Exception::Composite(value.clone()),
            Exception::Divide(value) => Exception::Divide(value.clone()),
            Exception::Domain(value) => Exception::Domain(value.clone()),
            Exception::EOF(value) => Exception::EOF(value.clone()),
            Exception::Error(value) => Exception::Error(value.clone()),
            Exception::Inexact(value) => Exception::Inexact(value.clone()),
            Exception::Init(value) => Exception::Init(value.clone()),
            Exception::Interrupt(value) => Exception::Interrupt(value.clone()),
            Exception::InvalidState(value) => Exception::InvalidState(value.clone()),
            Exception::Key(value) => Exception::Key(value.clone()),
            Exception::Load(value) => Exception::Load(value.clone()),
            Exception::OutOfMemory(value) => Exception::OutOfMemory(value.clone()),
            Exception::ReadOnlyMemory(value) => Exception::ReadOnlyMemory(value.clone()),
            Exception::Remote(value) => Exception::Remote(value.clone()),
            Exception::Method(value) => Exception::Method(value.clone()),
            Exception::Overflow(value) => Exception::Overflow(value.clone()),
            Exception::Parse(value) => Exception::Parse(value.clone()),
            Exception::System(value) => Exception::System(value.clone()),
            Exception::Type(value) => Exception::Type(value.clone()),
            Exception::UndefRef(value) => Exception::UndefRef(value.clone()),
            Exception::UndefVar(value) => Exception::UndefVar(value.clone()),
            Exception::Unicode(value) => Exception::Unicode(value.clone()),
            Exception::Unknown(value) => Exception::Unknown(value.clone()),
        }
    }
}

/// Completes a foreign call that yields a wrapped object: a caught fault
/// short-circuits the return path; otherwise the returned reference is
/// wrapped, a null one rejected.
pub fn finish_value<T: JlValue>(ret: usize, caught: Option<Exception>) -> (r: Result<T, Error>)
    ensures
        caught matches Some(ex) ==> r == Err::<T, Error>(Error::UnhandledException(ex)),
        caught is None && ret == 0 ==> r == Err::<T, Error>(Error::NullPointer),
        caught is None && ret != 0 ==> (r matches Ok(v) && v.addr() == ret),
{
    match caught {
        Some(ex) => Err(Error::UnhandledException(ex)),
        None => T::new(ret),
    }
}

/// Completes a foreign call that yields nothing: a caught fault
/// short-circuits the return path, anything else succeeds.
pub fn finish_unit(caught: Option<Exception>) -> (r: Result<(), Error>)
    ensures
        caught matches Some(ex) ==> r == Err::<(), Error>(Error::UnhandledException(ex)),
        caught is None ==> r == Ok::<(), Error>(()),
{
    match caught {
        Some(ex) => Err(Error::UnhandledException(ex)),
        None => Ok(()),
    }
}

/// Wrapping a value under a kind yields an exception of exactly that kind,
/// carrying exactly that value.
pub proof fn lemma_with_kind_shape(value: Value, k: ExceptionKind)
    ensures
        with_kind(value, k).spec_kind() == k,
        with_kind(value, k).spec_inner() == value,
{
}

} // verus!
