//! A container that lets its value be changed only inside a scope, and runs the
//! value's finalizer once when the scope is released.
//!
//! [`MutGuard`] owns the value and hands it out read-only. [`MutGuard::guard`]
//! opens a scope: a [`MutGuardBorrow`], which holds the container exclusively
//! and gives `&mut` access to the value. [`MutGuardBorrow::release`] closes the
//! scope and calls [`Guard::finish`] on the value, exactly once, before the
//! container can be reached again. [`MutGuardWrapper`] makes a [`Guard`] of any
//! value and a closure.
//!
//! The finalizer is the caller's code. The library calls it and states what it
//! did in terms of the finalizer's own contract ([`finalizer::finalizes`]); it
//! neither catches nor changes what the finalizer does. A finalizer that checks
//! an invariant names the states that pass as [`Guard::accepts`], and Verus then
//! asks for the invariant wherever a scope is released.
pub mod finalizer;
pub mod guard;
pub mod laws;
pub mod wrapper;

pub use crate::finalizer::Guard;
pub use crate::guard::MutGuard;
pub use crate::guard::MutGuardBorrow;
pub use crate::wrapper::MutGuardWrapper;
