//! Core of a terminal front-end for an external media downloader.
//!
//! The library holds the three subsystems whose behaviour is worth stating
//! precisely: the progress-line parser, the run supervisor that turns a
//! finished process's output into a success or failure outcome, and the
//! interactive state machine that routes keyboard and mouse events.
//! Terminal I/O, process spawning and rendering live outside the library.

pub mod config;
pub mod progress;
pub mod state;
pub mod supervisor;
