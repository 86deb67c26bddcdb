//! Core of an interactive terminal prompt engine: a character-indexed
//! text input buffer, key-to-action mapping, list pagination, a renderer
//! that replaces each frame exactly, and the validate and confirm loops of
//! the prompts, all with verified contracts. Terminal input and output
//! happen outside: the renderer queues terminal operations and the prompts
//! take one key at a time.

pub mod action;
pub mod calendar;
pub mod error;
pub mod input;
pub mod key;
pub mod pager;
pub mod password;
pub mod renderer;
pub mod select;
pub mod terminal;
pub mod text;
