//! Materialises a tree of configuration templates onto the filesystem.
//!
//! The library holds the logic: how a template path maps to its target, how a
//! template is rendered against the configuration context, and the walk over
//! the template tree as a state machine that asks its driver for the I/O.

pub mod config;
pub mod render;
pub mod target;
pub mod text;
pub mod walk;
