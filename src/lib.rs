//! Access to memory-mapped hardware registers made of bit-fields.
//!
//! A register is described once by its width, its access mode and its
//! fields. Values placed into a field are always representable in that
//! field's bit width, and several fields can be folded into a single
//! write that leaves every other bit of the register untouched.
use vstd::prelude::*;

pub mod bounds;
pub mod field;
pub mod register;

pub use bounds::Bounded;
pub use field::{Field, FieldDescriptor, FieldDisj, Positioned};
pub use register::{modified_word, ReadOnly, ReadOnlyCopy, ReadWrite, Readable, Register, Writable, WriteOnly};

verus! {

} // verus!
