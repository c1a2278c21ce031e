//! Schema handling.
pub mod context;
pub mod identity;
