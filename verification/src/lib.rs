//! Hand-built dynamic dispatch for a single capability ("speak").
//!
//! A caller can hold "a thing that can speak" in one handle type,
//! reassign it across values of different concrete types, and invoke the
//! capability without the call site knowing which concrete type is behind
//! the handle. The dispatch table and the soundness invariant that binds a
//! table to its referent's true type are built and proved by hand in
//! `handle`; the capability interface and its concrete implementors live
//! in `capability`.

pub mod capability;
pub mod handle;
pub mod laws;
