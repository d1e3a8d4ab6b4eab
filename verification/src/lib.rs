//! A growable, untyped buffer: it owns room for `capacity` elements of one
//! type and keeps no count of how many of them are initialised.
//!
//! The buffer computes layouts, guards sizes, grows by doubling and gives its
//! memory back; the memory itself comes from an [`Allocator`], which the
//! owner of the buffer supplies.

pub mod allocator;
pub mod layout;
pub mod raw_vec;

pub use allocator::{AllocError, Allocator, Block};
pub use layout::{Layout, LayoutError};
pub use raw_vec::{alloc_guard, AllocInit, Failure, RawVec};
