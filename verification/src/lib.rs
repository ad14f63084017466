//! A pointer-like handle over a foreign (C++-style) reference.
//!
//! C++ permits any number of simultaneous references, const or mutable, to
//! the same object. The handle type here carries such an aliasing reference
//! as a plain address paired with a compile-time mutability tag, so that the
//! read/write distinction stays statically checked even though aliasing
//! itself is deliberately permitted.

pub mod memory;
pub mod reference_wrapper;
