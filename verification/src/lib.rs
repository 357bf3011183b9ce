//! The error-reporting layer of a command-line archive tool: one closed set of
//! failures, the rules that turn the failures of the filesystem, of the zip
//! reader, of the directory walker and of the argument parser into it, and the
//! message that each failure shows on the terminal.

pub mod colors;
pub mod error;
pub mod foreign;
pub mod laws;
pub mod oof;
