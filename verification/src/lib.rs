//! Permission-tagged pointer wrappers for memory-mapped access.
//!
//! This crate models the discipline used to address memory-mapped hardware
//! registers: every handle to a region carries an access permission drawn
//! from a closed four-element lattice, and every operation on a handle is
//! gated by that permission.  Illegal operations (writing through a
//! read-only handle, duplicating a write-capable handle) are ruled out
//! statically by the operations' preconditions.
//!
//! Three layers build on each other:
//! - [`access`] defines the permission lattice, its restriction operator,
//!   and the marker types that lift permissions to the type level;
//! - [`VolatilePtr`] and [`VolatileRef`] are the two handle forms: a
//!   freely-narrowable, non-owning pointer and an exclusively-owned
//!   reference over a memory region;
//! - [`generator`] turns a declarative struct layout into one
//!   permission-bounded accessor per field.

pub mod access;
pub mod generator;
pub mod volatile_ptr;
pub mod volatile_ref;

pub use volatile_ptr::VolatilePtr;
pub use volatile_ref::VolatileRef;
