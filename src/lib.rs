//! Branded cells whose contents are reached only through the token of their pool.
//!
//! A `GhostToken` owns the storage of a pool of cells and carries a brand that
//! exists only in specifications. A `GhostCell` is a handle to one slot of that
//! pool, tagged with the same brand: holding the token by shared reference gives
//! shared access to every cell of the pool, holding it by mutable reference gives
//! exclusive access to any one of them.

pub mod ghost_borrow;
pub mod ghost_cell;
pub mod ghost_cursor;
pub mod ghost_slice;

pub use ghost_borrow::GhostBorrow;
pub use ghost_cell::{GhostAliasingError, GhostCell, GhostToken};
pub use ghost_cursor::GhostCursor;
pub use ghost_slice::GhostSlice;
