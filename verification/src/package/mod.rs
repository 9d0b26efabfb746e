//! The commands `declare`, `sync` and `remove`, each as a sequence of steps.
//!
//! Each command is a machine: it names the action the driver must perform
//! next, and moves on when told what came of it. The driver performs file
//! system, network and process work; the machine decides what that work is,
//! what is printed, and what is recorded.

pub mod declare;
pub mod remove;
pub mod sync;
