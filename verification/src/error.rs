//! Host-level error values: everything a fallible operation of this crate can
//! report, from classified guest faults to host-boundary violations.

use vstd::prelude::*;
use vstd::string::StringExecFns;
use crate::api::exception::Exception;

verus! {

/// A union of all failures that can surface at the host/guest boundary:
/// guest exceptions, boundary-contract violations (null pointers, bad
/// symbols, poisoned or still-shared resources), and wrapped lower-level
/// text-encoding and I/O failures.
#[derive(Debug)]
pub enum Error {
    /// An exception was raised by the guest runtime and not handled there.
    UnhandledException(Exception),
    /// Cannot unbox into the requested type.
    InvalidUnbox,
    /// Tried to call a non-function object.
    NotAFunction,
    /// An error occurred while trying to call a function.
    CallError,
    /// An error occurred while evaluating a string or expression.
    EvalError,
    /// Attempt to construct a wrapped object from a null pointer.
    NullPointer,
    /// A field or symbol name did not resolve.
    InvalidSymbol,
    /// Attempt to initialize the runtime when it is already initialized.
    JuliaInitialized,
    /// A borrowed C string held an interior nul byte.
    CStrError,
    /// An owned C string could not be formed from the given bytes.
    CStringError,
    /// The exclusive guard of a shared resource was poisoned by an earlier
    /// panic.
    PoisonError,
    /// Tried to consume a resource that other owners still share.
    ResourceInUse,
    /// A code point was outside the valid unicode range.
    UTF8Error,
    /// A byte sequence was not valid UTF-8.
    FromUTF8Error,
    /// A C string could not be converted into an owned string.
    IntoStringError,
    /// A lower-level I/O failure, passed through unchanged.
    IOError,
}

impl Error {
    /// The text that describes this error to a human reader.
    pub open spec fn spec_description(&self) -> Seq<char> {
        match self {
            Error::UnhandledException(ex) => "UnhandledException("@ + ex.spec_description()
                + ")"@,
            Error::InvalidUnbox => "InvalidUnbox"@,
            Error::NotAFunction => "NotAFunction"@,
            Error::CallError => "CallError"@,
            Error::EvalError => "EvalError"@,
            Error::NullPointer => "NullPointer"@,
            Error::InvalidSymbol => "InvalidSymbol"@,
            Error::JuliaInitialized => "JuliaInitialized"@,
            Error::CStrError => "CStrError"@,
            Error::CStringError => "CStringError"@,
            Error::PoisonError => "PoisonError"@,
            Error::ResourceInUse => "ResourceInUse"@,
            Error::UTF8Error => "UTF8Error"@,
            Error::FromUTF8Error => "FromUTF8Error"@,
            Error::IntoStringError => "IntoStringError"@,
            Error::IOError => "IOError"@,
        }
    }

    /// Renders the error, naming the classified exception kind where one is
    /// carried.
    pub fn description(&self) -> (r: String)
        ensures
            r@ == self.spec_description(),
    {
        match self {
            Error::UnhandledException(ex) => {
                let mut s = String::from_str("UnhandledException(");
                s.append(ex.description());
                s.append(")");
                s
            },
            Error::InvalidUnbox => String::from_str("InvalidUnbox"),
            Error::NotAFunction => String::from_str("NotAFunction"),
            Error::CallError => String::from_str("CallError"),
            Error::EvalError => String::from_str("EvalError"),
            Error::NullPointer => String::from_str("NullPointer"),
            Error::InvalidSymbol => String::from_str("InvalidSymbol"),
            Error::JuliaInitialized => String::from_str("JuliaInitialized"),
            Error::CStrError => String::from_str("CStrError"),
            Error::CStringError => String::from_str("CStringError"),
            Error::PoisonError => String::from_str("PoisonError"),
            Error::ResourceInUse => String::from_str("ResourceInUse"),
            Error::UTF8Error => String::from_str("UTF8Error"),
            Error::FromUTF8Error => String::from_str("FromUTF8Error"),
            Error::IntoStringError => String::from_str("IntoStringError"),
            Error::IOError => String::from_str("IOError"),
        }
    }
}

} // verus!
