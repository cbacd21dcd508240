//! The host-facing surface of the binding: handle types for every guest
//! value kind, the exception bridge, the call layer, and the structures that
//! control the runtime itself.

use vstd::prelude::*;
use crate::error::Error;

pub mod array;
pub mod datatype;
pub mod exception;
pub mod function;
pub mod module;
pub mod sym;
pub mod task;
pub mod value;

pub use self::array::{Array, Svec};
pub use self::datatype::Datatype;
pub use self::exception::Exception;
pub use self::function::Function;
pub use self::module::Module;
pub use self::sym::{IntoSymbol, Symbol};
pub use self::task::Task;
pub use self::value::{JlValue, Value};

verus! {

/// Marker through which the guest garbage collector is controlled.  The
/// control calls themselves go to the runtime; holding the marker mutably is
/// what serializes them.
pub struct Gc {}

/// The handle that controls the guest runtime: its distinguished namespaces,
/// the status to report when the runtime is shut down, and the collector
/// marker.
pub struct Julia {
    main: Module,
    core: Module,
    base: Module,
    top: Module,
    at_exit: Option<i32>,
    gc: Gc,
}

impl Julia {
    /// The main namespace handle.
    pub closed spec fn spec_main(&self) -> Module {
        self.main
    }

    /// The core namespace handle.
    pub closed spec fn spec_core(&self) -> Module {
        self.core
    }

    /// The base namespace handle.
    pub closed spec fn spec_base(&self) -> Module {
        self.base
    }

    /// The top namespace handle.
    pub closed spec fn spec_top(&self) -> Module {
        self.top
    }

    /// The status to hand the runtime's shutdown hook, if any.
    pub closed spec fn spec_at_exit(&self) -> Option<i32> {
        self.at_exit
    }

    /// The collector marker.
    pub closed spec fn spec_gc(&self) -> Gc {
        self.gc
    }

    /// Whether two runtime handles hold the same namespaces.
    pub open spec fn same_modules(&self, other: &Julia) -> bool {
        &&& self.spec_main() == other.spec_main()
        &&& self.spec_core() == other.spec_core()
        &&& self.spec_base() == other.spec_base()
        &&& self.spec_top() == other.spec_top()
    }

    /// Assembles the runtime handle from its four distinguished namespace
    /// handles, as read from the runtime's fixed global slots once the
    /// runtime is initialized.  No shutdown status is set yet.
    pub fn with_modules(main: Module, core: Module, base: Module, top: Module) -> (r: Self)
        ensures
            r.spec_main() == main,
            r.spec_core() == core,
            r.spec_base() == base,
            r.spec_top() == top,
            r.spec_at_exit() is None,
    {
        Julia { main, core, base, top, at_exit: None, gc: Gc {  } }
    }

    /// The garbage-collector marker.
    pub fn gc(&self) -> (r: &Gc)
        ensures
            *r == self.spec_gc(),
    {
        &self.gc
    }

    /// The garbage-collector marker, exclusively.
    pub fn gc_mut(&mut self) -> (r: &mut Gc)
        ensures
            old(self).same_modules(final(self)),
            final(self).spec_at_exit() == old(self).spec_at_exit(),
    {
        &mut self.gc
    }

    /// The status to hand the runtime's shutdown hook, if one was set.
    pub fn exit_status(&self) -> (r: Option<i32>)
        ensures
            r == self.spec_at_exit(),
    {
        self.at_exit
    }

    /// Consumes the handle with a shutdown status, so dropping it reports
    /// that status to the runtime's shutdown hook.
    pub fn exit(self, at_exit: i32) {
        let mut this = self;
        this.at_exit(Some(at_exit))
    }

    /// Sets the status to hand the runtime's shutdown hook; nothing reports
    /// it when none is set.
    pub fn at_exit(&mut self, at_exit: Option<i32>)
        ensures
            final(self).spec_at_exit() == at_exit,
            old(self).same_modules(final(self)),
    {
        self.at_exit = at_exit;
    }

    /// A handle to the main namespace.
    pub fn main(&self) -> (r: &Module)
        ensures
            *r == self.spec_main(),
    {
        &self.main
    }

    /// A handle to the core namespace.
    pub fn core_module(&self) -> (r: &Module)
        ensures
            *r == self.spec_core(),
    {
        &self.core
    }

    /// A handle to the base namespace.
    pub fn base(&self) -> (r: &Module)
        ensures
            *r == self.spec_base(),
    {
        &self.base
    }

    /// A handle to the top namespace.
    pub fn top(&self) -> (r: &Module)
        ensures
            *r == self.spec_top(),
    {
        &self.top
    }
}

/// Completes an evaluation from its outcome: a caught fault short-circuits
/// the return path, and a null result without a fault is an evaluation
/// error.
pub fn finish_eval(ret: usize, caught: Option<Exception>) -> (r: Result<Value, Error>)
    ensures
        caught matches Some(ex) ==> r == Err::<Value, Error>(Error::UnhandledException(ex)),
        caught is None && ret == 0 ==> r == Err::<Value, Error>(Error::EvalError),
        caught is None && ret != 0 ==> (r matches Ok(v) && v.addr() == ret),
{
    match caught {
        Some(ex) => Err(Error::UnhandledException(ex)),
        None => match Value::new(ret) {
            Ok(v) => Ok(v),
            Err(_) => Err(Error::EvalError),
        },
    }
}

} // verus!
