//! The logic of the `wally` command line: what each command decides, computes
//! and prints, stated as contracts over plain values and proved.
//!
//! Nothing here performs I/O. A command that talks to an engine, a console or
//! the file system is a function (or a step function) from what came back to
//! what to do next; the program around the library performs the actions.

pub mod account;
pub mod calendar;
pub mod cli;
pub mod commands;
pub mod config;
pub mod desktop;
pub mod device_info;
pub mod disk;
pub mod document;
pub mod engine;
pub mod median;
pub mod money;
pub mod output;
pub mod pathname;
pub mod text;
