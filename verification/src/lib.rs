//! A small accumulator machine: sixteen-bit instruction words, a 512-word
//! memory, a fetch-decode-execute engine and the state machine of its
//! interactive debugger.
//!
//! - `instruction`: the instruction word, its fields and their encoding.
//! - `mem`: the memory, with checked access, and its renderings as text.
//! - `processor`: the registers and the cycle, alone and under the debugger.
//! - `interactive`: the debugger's states, commands and breakpoints.
//! - `parser`: the text form of a program image.
//! - `fault`: the errors that end a run.
//! - `text`: numerals, alignment and words.
//! - `laws`: what holds of the machine whatever the program.
//!
//! Nothing here reads or writes anything but its arguments: whoever runs the
//! machine shows what it hands out and hands in what the user types.
pub mod fault;
pub mod instruction;
pub mod interactive;
pub mod laws;
pub mod mem;
pub mod parser;
pub mod processor;
pub mod text;
