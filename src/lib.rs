//! Converts text from Traditional Chinese to Simplified Chinese: the decisions
//! of the command-line tool (arguments, output naming, overwrite guard and the
//! line-by-line conversion session), kept apart from the I/O that carries them out.
pub mod cli;
pub mod error;
pub mod guard;
pub mod driver;
pub mod naming;
pub mod session;
pub mod text;
