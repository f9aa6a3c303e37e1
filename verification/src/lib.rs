//! Privilege elevation, two-phase installation and service resolution for
//! the `corky-` family of supervised services.
//!
//! The library decides; its caller reads files, runs commands and talks to
//! the terminal. Every decision is a function of plain values with a
//! contract over a mathematical model:
//!
//! - `directory` reads the supervisor's listings into scope-tagged records;
//! - `selector` and `resolver` turn what the user wrote into one service;
//! - `elevation` says when elevated rights are needed and how the process
//!   hands itself over to the privilege helper;
//! - `manifest`, `checksum` and `unit_file` derive what an installation
//!   reads, verifies and writes;
//! - `workflow` drives installing and uninstalling, step by step;
//! - `supervisor` spells the commands;
//! - `names` and `text` hold the family prefix and the text primitives.

pub mod text;
pub mod names;
pub mod directory;
pub mod selector;
pub mod resolver;
pub mod checksum;
pub mod manifest;
pub mod elevation;
pub mod unit_file;
pub mod workflow;
pub mod supervisor;
