//! Intrinsic (minimum) box sizing for a tree of layout nodes.
//!
//! Lengths are written with a unit (pixels, percent of the nearest sized
//! ancestor, percent of the root's width or height) and resolved against a
//! per-traversal [`context::Context`]. A [`node::Node`] folds the minimum sizes
//! of its children along its own axis and then applies its own padding, gap
//! and size constraints.
pub mod types;
pub mod style;
pub mod context;
pub mod node;
pub mod fixtures;
