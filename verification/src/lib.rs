//! Brausi: a small controller for a Chromium instance running inside a virtual
//! X display. The library holds every decision the controller makes: parsing
//! the command line, reading the configuration, building the argument lists of
//! the helper programs, and the step-by-step plan that a command follows. The
//! program around it performs the steps.

pub mod cli;
pub mod commands;
pub mod config;
pub mod laws;
pub mod process;
pub mod session;
pub mod text;

pub use cli::{parse_args, CliCommand, PointerAction};
pub use config::{Config, Environment};
pub use process::{validate_coords, ProcessStatus};
pub use session::{run, Action, Event, Session};
