//! Provisioning logic for a two-component stack (a core runtime and a
//! backend module): where things live, which filesystem and process
//! operations each command performs, and how their outcomes are judged.
//! The operations themselves are carried out by the caller.

pub mod error;
pub mod text;
pub mod paths;
pub mod ops;
pub mod process;
pub mod layout;
pub mod steps;
pub mod runner;
pub mod commands;
pub mod archive;
pub mod model;
