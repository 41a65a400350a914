//! Helpers that do not belong to the builder itself.

pub mod strings;

pub use strings::indent_space;
