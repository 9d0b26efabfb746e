//! Verified core of a small manager for software packages built from the
//! latest GitHub release of a repository.
//!
//! The library decides what the command line tool does: where each
//! package's files live, which messages it prints, what it records about a
//! package, and in which order it performs the steps of `declare`, `sync`
//! and `remove`. Reading and writing files, talking to the network and
//! running build scripts are left to the program that drives these
//! decisions.

pub mod cli;
pub mod config;
pub mod data;
pub mod error;
pub mod github;
pub mod layout;
pub mod package;
pub mod state;
pub mod text;
