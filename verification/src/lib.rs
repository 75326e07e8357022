//! A verified core for a small line-oriented text editor: an edit buffer
//! with a cursor, the keystroke dispatch that drives it, the file-content
//! codec that loads and saves it, and the screen rows a renderer draws.

pub mod buffer;
pub mod codec;
pub mod input;
pub mod screen;
