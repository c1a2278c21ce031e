//! Caching backends and the pieces they share.
pub mod utils;
pub mod memory;
pub mod sqlite;
