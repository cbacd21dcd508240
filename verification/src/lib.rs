//! Host-side safety layer over an embedded dynamic-language runtime.
//!
//! The library wraps raw runtime object references into shared, checked
//! handles, classifies guest faults into a fixed exception taxonomy, and
//! decodes the runtime's tagged-pointer and field-layout encodings.  Every
//! function here is verified; the raw foreign entry points themselves live
//! outside the library and hand it plain values.

pub mod api;
pub mod sys;
pub mod error;
pub mod version;
