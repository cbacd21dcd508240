//! The low-level decoders that mirror the runtime's own object
//! representation: tag words, generational GC metadata, and packed field
//! layout descriptors.  Everything here works on plain words and bytes that
//! the caller read from runtime memory; none of it may be cached across a
//! point where the collector can run.

pub mod layout;
pub mod tag;
