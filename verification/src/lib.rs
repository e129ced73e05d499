//! Compile-time dependency injection: from the description of a state type and
//! a chosen name, this crate writes a transparent wrapper around a dependency
//! context, the conversions between the context and the wrapper for every
//! kind of ownership, and the impls that forward the standard capabilities of
//! the context to the wrapper.

pub mod model;
pub mod syntax;
pub mod validate;
pub mod generics;
pub mod render;
pub mod items;
pub mod wrapper;
pub mod forward;
pub mod convert;
pub mod assemble;
pub mod parity;
pub mod world;
