//! A shell command gateway for a desktop UI: it decides what each command line
//! asks for, keeps the session's working directory across commands, maps how a
//! shell process ended to a reply, and turns shell listings into completion
//! suggestions. The host runs the processes and looks at the file system.

pub mod completion;
pub mod error;
pub mod listing;
pub mod outcome;
pub mod session;
pub mod text;
