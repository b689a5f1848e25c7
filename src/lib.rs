//! Recognizers for the loop statements of a hardware description language:
//! `forever`, `repeat`, `while`, `for`, `do ... while` and `foreach`.
//!
//! Every parser takes the input bytes and a position and returns either the
//! node it recognized together with the position just past it, or `None`,
//! in which case the caller's position is untouched.
pub mod lexer;
pub mod terms;
pub mod ast;
pub mod looping;
pub mod laws;
