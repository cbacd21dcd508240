//! Handle construction, locking, sharing and reinterpretation.

use julia::api::value::{from_value, into_value};
use julia::api::{Function, JlValue, Value};
use julia::error::Error;

#[test]
fn handle_new_then_lock_returns_pointer() {
    let v = Value::new(0x1000).unwrap();
    assert_eq!(v.lock().unwrap(), 0x1000);
}

#[test]
fn handle_new_unchecked_then_lock_returns_pointer() {
    let v = Value::new_unchecked(0x1010);
    assert_eq!(v.lock().unwrap(), 0x1010);
}

#[test]
fn handle_new_null_fails() {
    assert!(matches!(Value::new(0), Err(Error::NullPointer)));
    assert!(matches!(Function::new(0), Err(Error::NullPointer)));
}

#[test]
fn handle_guard_is_healthy() {
    let v = Value::new(0x1020).unwrap();
    assert!(v.is_ok());
}

#[test]
fn map_applies_to_pointer() {
    let v = Value::new(0x1400).unwrap();
    let doubled = v.map(|p| p + 1).unwrap();
    assert_eq!(doubled, 0x1401);
    assert_eq!(v.map_or(|p| p, 0), 0x1400);
    assert_eq!(v.map_or_else(|p| p, |_| 0), 0x1400);
}

#[test]
fn shared_owner_survives_drop_of_other() {
    let f = Function::new_unchecked(0x2000);
    let a: Value = into_value(f).unwrap();
    let b = a.clone();
    drop(a);
    assert_eq!(b.lock().unwrap(), 0x2000);
}

#[test]
fn into_inner_fails_while_shared() {
    let a = Value::new_unchecked(0x3000);
    let b = a.clone();
    assert!(matches!(b.into_inner(), Err(Error::ResourceInUse)));
    assert_eq!(a.into_inner().unwrap(), 0x3000);
}

#[test]
fn reinterpret_keeps_pointer() {
    let v = Value::new(0x4000).unwrap();
    let f: Function = from_value(v).unwrap();
    assert_eq!(f.lock().unwrap(), 0x4000);
}

#[test]
fn reinterpret_fails_while_shared() {
    let v = Value::new(0x4100).unwrap();
    let keep = v.clone();
    let r: Result<Function, Error> = from_value(v);
    assert!(matches!(r, Err(Error::ResourceInUse)));
    assert_eq!(keep.lock().unwrap(), 0x4100);
}

#[test]
fn two_reinterpreted_owners_count_correctly() {
    let v = Value::new(0x4200).unwrap();
    let a: Function = from_value(v).unwrap();
    let b = a.clone();
    assert!(matches!(b.into_inner(), Err(Error::ResourceInUse)));
    assert_eq!(a.lock().unwrap(), 0x4200);
    assert_eq!(a.into_inner().unwrap(), 0x4200);
}
