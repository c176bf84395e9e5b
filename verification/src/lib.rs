//! Ownership-tracked handles over an operating-system certificate store
//! subsystem.
//!
//! The platform calls themselves (opening a store, inserting an encoded
//! record, duplicating and closing handles) are made by unverified glue
//! around this crate; what is verified here is everything the module
//! itself decides: how each call's outcome is turned into an owned handle
//! or an error, that a handle value exists only for a non-null underlying
//! object, and how the reference count of a shared store object evolves
//! under opening, duplication and closing.

pub mod cert;
pub mod lifecycle;
