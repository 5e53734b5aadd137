//! A safety layer over the HDF5 library's opaque-identifier object model:
//! reference-counted handles, capability-checked typed wrappers, a
//! datatype-mapping subsystem and a dataspace (shape) abstraction.
//!
//! The native library keeps every resource in a process-wide registry keyed by
//! integer identifiers and managed by manual reference counting.  This crate
//! models that registry as an explicit value ([`registry::Registry`]) that
//! every operation takes by reference; exclusive mutable borrows play the role
//! of the process-wide serialization the registry otherwise needs.

pub mod registry;

pub mod error;

pub mod handle;

pub mod render;

pub mod object;

pub mod datatype;

pub mod space;

pub mod group;
