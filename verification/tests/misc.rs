//! Runtime handle assembly, the type builder, versions, and the basic
//! soundness of the freshly assembled binding.

use julia::api::datatype::{TypeBuilder, VarargKind};
use julia::api::{Datatype, Exception, JlValue, Julia, Module, Svec, Symbol};
use julia::version;

#[test]
fn sanity() {
    // The host side of bringing the runtime up: the four distinguished
    // namespaces are wrapped and assembled into the control handle.
    let jl = Julia::with_modules(
        Module::new_unchecked(0x100),
        Module::new_unchecked(0x200),
        Module::new_unchecked(0x300),
        Module::new_unchecked(0x400),
    );
    assert!(jl.main().lock().unwrap() != 0);
    assert!(Exception::catch(0, "").is_none());
}

#[test]
fn lib_sanity() {
    // The host-side part of bringing up the binding: assembling the control
    // handle from wrapped namespaces succeeds.
    let _jl = Julia::with_modules(
        Module::new_unchecked(0x100),
        Module::new_unchecked(0x200),
        Module::new_unchecked(0x300),
        Module::new_unchecked(0x400),
    );
}

#[test]
fn runtime_handle_exposes_namespaces() {
    let jl = Julia::with_modules(
        Module::new_unchecked(0x100),
        Module::new_unchecked(0x200),
        Module::new_unchecked(0x300),
        Module::new_unchecked(0x400),
    );
    assert_eq!(jl.main().lock().unwrap(), 0x100);
    assert_eq!(jl.core_module().lock().unwrap(), 0x200);
    assert_eq!(jl.base().lock().unwrap(), 0x300);
    assert_eq!(jl.top().lock().unwrap(), 0x400);
    let _gc = jl.gc();
}

#[test]
fn runtime_handle_records_exit_status() {
    let mut jl = Julia::with_modules(
        Module::new_unchecked(0x100),
        Module::new_unchecked(0x200),
        Module::new_unchecked(0x300),
        Module::new_unchecked(0x400),
    );
    jl.at_exit(Some(7));
    assert_eq!(jl.exit_status(), Some(7));
    jl.at_exit(None);
    assert_eq!(jl.exit_status(), None);
    let _gc = jl.gc_mut();
    jl.exit(0);
}

#[test]
fn binding_version() {
    let v = version::get();
    assert_eq!(v.name, "julia-rs");
    assert_eq!(v.major, version::MAJOR);
    assert_eq!(v.minor, version::MINOR);
    assert_eq!(v.patch, version::PATCH);
    assert!(!v.release);
    assert_eq!(v.text(), "julia-rs 0.1.0");
}

#[test]
fn version_text_renders_multi_digit_numbers() {
    let v = version::Version { name: "julia", major: 1, minor: 11, patch: 2, release: true };
    assert_eq!(v.text(), "julia 1.11.2");
    let v = version::Version { name: "julia", major: 0, minor: 7, patch: 0, release: false };
    assert_eq!(v.text(), "julia 0.7.0");
}

#[test]
fn vararg_kind_codes() {
    assert_eq!(VarargKind::try_from(0).unwrap(), VarargKind::Absent);
    assert_eq!(VarargKind::try_from(1).unwrap(), VarargKind::Int);
    assert_eq!(VarargKind::try_from(2).unwrap(), VarargKind::Bound);
    assert_eq!(VarargKind::try_from(3).unwrap(), VarargKind::Unbound);
    assert!(VarargKind::try_from(4).is_err());
}

#[test]
fn type_builder_gathers_construction_inputs() {
    let any = Datatype::new_unchecked(0x10);
    let empty = Svec::new_unchecked(0x20);
    let b = TypeBuilder::new(&any, &empty);
    assert_eq!(b.name, 0);
    assert_eq!(b.supertype, 0x10);
    assert_eq!(b.params, 0x20);
    assert_eq!(b.fnames, 0x20);
    assert_eq!(b.ftypes, 0x20);
    assert!(!b.is_err());
    assert!(b.err().is_none());

    let super2 = Datatype::new_unchecked(0x30);
    let fnames = Svec::new_unchecked(0x40);
    let ftypes = Svec::new_unchecked(0x50);
    let name = Symbol::new_unchecked(0x60);
    let b = b
        .name(name)
        .supertype(&super2)
        .fnames(&fnames)
        .ftypes(&ftypes)
        .nbits(64)
        .abstrac(false)
        .mutable(true)
        .ninitialized(true)
        .primitive(false);
    assert_eq!(b.name, 0x60);
    assert_eq!(b.supertype, 0x30);
    assert_eq!(b.fnames, 0x40);
    assert_eq!(b.ftypes, 0x50);
    assert_eq!(b.nbits, 64);
    assert!(b.mutable);
    assert!(b.ninitialized);
    assert!(!b.abstrac);
    assert!(!b.primitive);
    assert!(!b.is_err());
}

#[test]
fn type_builder_records_shared_symbol_failure() {
    // A name symbol still shared elsewhere cannot be consumed into the
    // builder: the failure is recorded, not raised.
    let any = Datatype::new_unchecked(0x10);
    let empty = Svec::new_unchecked(0x20);
    let name = Symbol::new_unchecked(0x60);
    let keep = name.clone();
    let b = TypeBuilder::new(&any, &empty).name(name);
    assert!(b.is_err());
    assert_eq!(keep.lock().unwrap(), 0x60);
}
