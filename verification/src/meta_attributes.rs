//! Attribute types that implement the attribute traits directly.

pub mod show_if;
