//! A line-oriented command shell, as a verified library.
//!
//! The parsing chain (token, argument, statement), the pipeline splitter, the
//! environment store, the builtin commands and the decisions of the executor are
//! exec functions whose contracts are stated over mathematical models and proved.
//! Reading lines, probing the file system and running child processes are left to
//! the program around this library.

pub mod ascii;
pub mod bytes;
pub mod executor;
pub mod global_struct;
pub mod parser;
pub mod pb_core;
pub mod pipeline;
pub mod program;
pub mod program_output;
