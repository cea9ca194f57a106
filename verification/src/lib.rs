//! Decision logic of a small plain-text editor and of a counter.

pub mod buffer;
pub mod counter;
pub mod editor;
pub mod files;
pub mod invariants;
pub mod message;
pub mod view;
