//! A line-editing engine: it turns editing actions into changes of a text buffer with a
//! cursor, and offers inline completions and cyclable suggestions while the line is edited.
pub mod completion;
pub mod key_bindings;
pub mod prompt;

pub use prompt::Prompt;
