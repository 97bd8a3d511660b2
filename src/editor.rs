//! A small line editor over a fixed-size text buffer.
pub mod buffer;

pub use buffer::TextEditor;
