//! Entry point of the `toutui` command: when the command is invoked with any
//! trailing argument it reports the version of this build and stops there.

pub mod entry;

pub use entry::{clap, CommandDescriptor, PROGRAM_NAME, VERSION};
