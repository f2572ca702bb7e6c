//! A hexadecimal memory viewer and editor core.
//!
//! The crate holds the arithmetic that maps addresses to rows, columns and
//! clusters of a hex grid, the registry of named address ranges, and the state
//! machine that tracks which cell is being edited. Drawing and input belong to
//! the host; it reports events and carries out the byte writes that the state
//! machine asks for.
use vstd::prelude::*;

pub mod editor;
pub mod hex;
pub mod layout;
pub mod option_data;

pub use editor::MemoryEditor;

verus! {

/// A memory address that is read from or written to.
pub type Address = usize;

} // verus!
