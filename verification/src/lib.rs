//! Snapshot tests for a compiler: fixtures are built by a compiler driver,
//! and what the driver and the built programs print is held against what
//! was recorded before.
//!
//! This crate is the part that decides. It expands the declared tests into
//! the set that runs (`expand`), says how a lock on the working directory
//! is acquired and released (`flock`), judges whether two texts are close
//! enough to be shown as a difference (`diff`), reconciles each test's
//! result with its snapshot under the update policy (`outcome`), and adds
//! the results up into the verdict of the session (`run`). Starting
//! processes, reading and writing files, and printing are left to the
//! caller, who is told what to do and hands back what came of it.

pub mod cases;
pub mod diff;
pub mod directory;
pub mod driver;
pub mod env;
pub mod error;
pub mod expand;
pub mod filter;
pub mod flock;
pub mod order;
pub mod outcome;
pub mod run;
pub mod term;
pub mod text;

pub use cases::TestCases;
pub use run::Project;
