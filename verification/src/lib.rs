//! An in-memory task list and the interactive shell that drives it.
//!
//! The crate holds the whole behaviour of a small terminal to-do manager as
//! verified functions on plain values: the ordered store of tasks, the text
//! that is shown for it, the reading of commands and task numbers, and the
//! shell that ties them together one input line at a time.

pub mod display;
pub mod input;
pub mod paint;
pub mod shell;
pub mod store;
pub mod task;
pub mod text;
