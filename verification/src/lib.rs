//! Removing the ten ASCII vowels from text, and the command-line rules
//! of the program built around that filter.

pub mod cli;
pub mod filter;
pub mod lemmas;
