//! An in-memory row store with a fixed-width binary row layout.
//!
//! Rows (`id`, `username`, `email`) are packed into exactly `ROW_SIZE` bytes
//! and placed into fixed-size pages that are allocated lazily as the table
//! grows.  The table accepts append-only inserts up to a fixed capacity and
//! scans rows back in insertion order.

pub mod executor;
pub mod layout;
pub mod pager;
pub mod row;
pub mod table;
