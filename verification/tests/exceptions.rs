//! Classification of guest faults and the bridge's completion steps.

use julia::api::exception::{finish_unit, finish_value};
use julia::api::{Exception, Function, JlValue, Value};
use julia::error::Error;

fn v(addr: usize) -> Value {
    Value::new(addr).unwrap()
}

#[test]
fn classify_each_taxonomy_entry() {
    assert!(matches!(Exception::with_value(v(1), "ArgumentError"), Ok(Exception::Argument(_))));
    assert!(matches!(Exception::with_value(v(1), "BoundsError"), Ok(Exception::Bounds(_))));
    assert!(matches!(
        Exception::with_value(v(1), "CompositeException"),
        Ok(Exception::Composite(_))
    ));
    assert!(matches!(Exception::with_value(v(1), "DivideError"), Ok(Exception::Divide(_))));
    assert!(matches!(Exception::with_value(v(1), "DomainError"), Ok(Exception::Domain(_))));
    assert!(matches!(Exception::with_value(v(1), "EOFError"), Ok(Exception::EOF(_))));
    assert!(matches!(Exception::with_value(v(1), "ErrorException"), Ok(Exception::Error(_))));
    assert!(matches!(Exception::with_value(v(1), "InexactError"), Ok(Exception::Inexact(_))));
    assert!(matches!(Exception::with_value(v(1), "InitError"), Ok(Exception::Init(_))));
    assert!(matches!(
        Exception::with_value(v(1), "InterruptException"),
        Ok(Exception::Interrupt(_))
    ));
    assert!(matches!(
        Exception::with_value(v(1), "InvalidStateException"),
        Ok(Exception::InvalidState(_))
    ));
    assert!(matches!(Exception::with_value(v(1), "KeyError"), Ok(Exception::Key(_))));
    assert!(matches!(Exception::with_value(v(1), "LoadError"), Ok(Exception::Load(_))));
    assert!(matches!(
        Exception::with_value(v(1), "OutOfMemoryError"),
        Ok(Exception::OutOfMemory(_))
    ));
    assert!(matches!(
        Exception::with_value(v(1), "ReadOnlyMemoryError"),
        Ok(Exception::ReadOnlyMemory(_))
    ));
    assert!(matches!(Exception::with_value(v(1), "RemoteException"), Ok(Exception::Remote(_))));
    assert!(matches!(Exception::with_value(v(1), "MethodError"), Ok(Exception::Method(_))));
    assert!(matches!(Exception::with_value(v(1), "OverflowError"), Ok(Exception::Overflow(_))));
    assert!(matches!(Exception::with_value(v(1), "ParseError"), Ok(Exception::Parse(_))));
    assert!(matches!(Exception::with_value(v(1), "SystemError"), Ok(Exception::System(_))));
    assert!(matches!(Exception::with_value(v(1), "TypeError"), Ok(Exception::Type(_))));
    assert!(matches!(Exception::with_value(v(1), "UndefRefError"), Ok(Exception::UndefRef(_))));
    assert!(matches!(Exception::with_value(v(1), "UndefVarError"), Ok(Exception::UndefVar(_))));
    assert!(matches!(Exception::with_value(v(1), "UnicodeError"), Ok(Exception::Unicode(_))));
}

#[test]
fn classify_unrecognized_name_degrades_to_unknown() {
    assert!(matches!(Exception::with_value(v(1), "SomethingNew"), Ok(Exception::Unknown(_))));
    assert!(matches!(Exception::with_value(v(1), ""), Ok(Exception::Unknown(_))));
    // A prefix or suffix of a known name is not a match.
    assert!(matches!(Exception::with_value(v(1), "BoundsErro"), Ok(Exception::Unknown(_))));
    assert!(matches!(Exception::with_value(v(1), "BoundsError2"), Ok(Exception::Unknown(_))));
    // Matching is exact, including letter case.
    assert!(matches!(Exception::with_value(v(1), "boundserror"), Ok(Exception::Unknown(_))));
}

#[test]
fn classified_exception_keeps_fault_object() {
    let ex = Exception::with_value(v(0x77), "UndefVarError").unwrap();
    assert_eq!(ex.inner_ref().lock().unwrap(), 0x77);
    let inner = ex.into_inner();
    assert_eq!(inner.lock().unwrap(), 0x77);
}

#[test]
fn inner_mut_borrows_fault_object() {
    let mut ex = Exception::with_value(v(0x78), "KeyError").unwrap();
    let inner = ex.inner_mut();
    assert_eq!(inner.lock().unwrap(), 0x78);
    assert!(matches!(ex, Exception::Key(_)));
}

#[test]
fn catch_on_clear_slot_reports_nothing() {
    assert!(Exception::catch(0, "").is_none());
    assert!(Exception::catch(0, "BoundsError").is_none());
}

#[test]
fn catch_on_pending_slot_classifies_fault() {
    // An undefined-variable fault is classified into its taxonomy entry, and
    // the slot value handed over afterwards is clear again.
    let caught = Exception::catch(0x99, "UndefVarError").unwrap();
    assert!(matches!(caught, Exception::UndefVar(_)));
    assert_eq!(caught.inner_ref().lock().unwrap(), 0x99);
    assert!(Exception::catch(0, "").is_none());
}

#[test]
fn parse_fault_classifies_as_parse_error() {
    // The fault an unparsable expression raises carries this type name.
    let caught = Exception::catch(0xa0, "ParseError").unwrap();
    assert!(matches!(caught, Exception::Parse(_)));
}

#[test]
fn exception_descriptions() {
    let ex = Exception::with_value(v(1), "DivideError").unwrap();
    assert_eq!(ex.description(), "divide by zero");
    let ex = Exception::with_value(v(1), "UndefVarError").unwrap();
    assert_eq!(ex.description(), "symbol is not defined in current scope");
    let ex = Exception::with_value(v(1), "NoSuchThing").unwrap();
    assert_eq!(ex.description(), "unknown exception");
}

#[test]
fn error_descriptions() {
    assert_eq!(Error::InvalidUnbox.description(), "InvalidUnbox");
    assert_eq!(Error::NullPointer.description(), "NullPointer");
    assert_eq!(Error::ResourceInUse.description(), "ResourceInUse");
    let ex = Exception::with_value(v(1), "DivideError").unwrap();
    assert_eq!(
        Error::UnhandledException(ex).description(),
        "UnhandledException(divide by zero)"
    );
}

#[test]
fn finish_unit_propagates_fault() {
    assert!(matches!(finish_unit(None), Ok(())));
    let ex = Exception::with_value(v(5), "TypeError").unwrap();
    assert!(matches!(
        finish_unit(Some(ex)),
        Err(Error::UnhandledException(Exception::Type(_)))
    ));
}

#[test]
fn finish_value_wraps_or_propagates() {
    let ok: Result<Function, Error> = finish_value(0x55, None);
    assert_eq!(ok.unwrap().lock().unwrap(), 0x55);
    let null: Result<Function, Error> = finish_value(0, None);
    assert!(matches!(null, Err(Error::NullPointer)));
    let ex = Exception::with_value(v(5), "EOFError").unwrap();
    let faulted: Result<Function, Error> = finish_value(0x55, Some(ex));
    assert!(matches!(faulted, Err(Error::UnhandledException(Exception::EOF(_)))));
}

#[test]
fn exception_clone_shares_fault_object() {
    let ex = Exception::with_value(v(0xb0), "RemoteException").unwrap();
    let dup = ex.clone();
    assert!(matches!(dup, Exception::Remote(_)));
    assert_eq!(dup.inner_ref().lock().unwrap(), 0xb0);
    drop(ex);
    assert_eq!(dup.inner_ref().lock().unwrap(), 0xb0);
}
