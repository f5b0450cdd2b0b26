//! Generation of keystroke-injection payload scripts.
//!
//! The library turns the text of source files into DuckyScript-style
//! payloads: linear sequences of typed-keystroke commands that recreate
//! each file on a target machine through its own shell, for either a
//! Windows or a Unix command dialect.  Everything here is plain string
//! templating and argument handling; reading files, walking directories
//! and writing the finished scripts stay with the caller.

pub mod args;
pub mod errors;
pub mod os;
pub mod path;
pub mod script;
pub mod text;
