//! Vtables that C++ can call, from Rust traits.
//!
//! The layout compiler in [`compile`] reads the description of a trait
//! ([`syntax`]) and gives the declarations of its vtable ([`layout`]): a
//! record of function pointers, one for each method in the order of the
//! methods, behind the record of the base interface where there is one; and
//! what is needed to build, for an implementer, the one constant table of
//! that record. [`laws`] holds what is proved of every such record.
//!
//! [`VPtr`] is what an object keeps to be called through its table.

pub mod compile;
pub mod error;
pub mod laws;
pub mod layout;
pub mod syntax;
pub mod vptr;

pub use compile::vtable;
pub use vptr::{vmt_instance, VPtr, VmtInstance, VmtLayout};
