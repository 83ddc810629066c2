//! Command interpretation and view routing for a text-terminal web UI.
//!
//! A user types a command; the library records it in the history log, takes
//! it apart into verb and arguments, decides which view answers it, and names
//! the fragment that shows that view. Producing markup and talking to the
//! network are left to the program around the library.

pub mod chars;
pub mod games;
pub mod history;
pub mod parser;
pub mod render;
pub mod resolver;
pub mod rules;
pub mod terminal;
pub mod text;
