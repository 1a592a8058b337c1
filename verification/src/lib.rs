//! Keystream turns typing into pitched tones. This crate holds the parts of
//! the program that decide things: which note each key plays in each scale
//! mode, which synthesiser voice a new note takes, how the command line is
//! read, and how the daemon's pid and mode files are written and read back.
pub mod cli;
pub mod daemon;
pub mod keyboard;
pub mod mapping;
pub mod text;
pub mod voice;
