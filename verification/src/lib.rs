//! The decisions behind a desktop application's native entry point.
//!
//! A launcher of this kind does little: it looks at the arguments the process
//! was started with, insists that an input path named there exists, offers a
//! handful of commands to the front end and hands control to the GUI
//! framework. Everything that touches the operating system or the framework
//! is the host program's business. What is decided on the way is decided
//! here, on plain values, and proved:
//!
//! - [`arguments`]: the argument list, captured once, and the input path in it;
//! - [`status`]: what the file system said about a path;
//! - [`failure`]: the two ways in which things go wrong;
//! - [`startup`]: which step the launcher takes next;
//! - [`commands`]: what each command answers;
//! - [`laws`]: how startup and the commands agree.

pub mod arguments;
pub mod commands;
pub mod failure;
pub mod laws;
pub mod startup;
pub mod status;
