//! Theming for interactive command-line prompts.
//!
//! A prompt renderer asks this crate *how* a piece of text should look
//! (colors, text attributes) after it has decided *what* the text means
//! (prompt prefix, user input, error message, ...). Every value here is
//! plain immutable data built through consuming builder methods.

pub mod ui;
