//! A terminal user interface for managing kernel parameters: command-line
//! resolution and the interactive session's state machine.

/// Command-line argument resolution.
pub mod args;
/// The option parser behind the command line.
pub mod opts;
/// Interactive session state, key classification and commands.
pub mod session;
