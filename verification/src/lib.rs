//! A differential conformance harness for `cat`-compatible programs.
//!
//! A program under test is held against a reference program: both are run
//! on the same arguments and the same input, and whatever they write and
//! however they end must agree byte for byte. The library holds the
//! decisions of the harness and performs no input or output itself. It
//! says which flag combinations are exercised and against which content,
//! how a process is launched, how two runs are compared, and how a suite
//! is tallied; the caller starts the processes and touches the files.
//!
//! - [`fixtures`]: the artifacts of a run, their paths and contents.
//! - [`options`], [`record`], [`matrix`], [`generated`]: the flag matrix
//!   and the cases derived from it; [`coverage`] and [`names`] state what
//!   the matrix holds and that its cases have names of their own.
//! - [`cases`], [`catalog`], [`roster`], [`plan`]: cases as values, the
//!   hand-written ones and their names, and what is done for a case.
//! - [`runner`], [`fifo`], [`compare`], [`conduct`]: launching a process,
//!   feeding it through a named pipe, comparing the two programs, and
//!   carrying a case through.
//! - [`suite`]: registering cases and running them in order.
//! - [`checks`], [`preprocess`], [`toolchain`]: the scripted checks, the
//!   comment filter, and the build of the program under test.

pub mod cases;
pub mod catalog;
pub mod checks;
pub mod compare;
pub mod conduct;
pub mod coverage;
pub mod fifo;
pub mod fixtures;
pub mod generated;
pub mod harness;
pub mod matrix;
pub mod names;
pub mod options;
pub mod plan;
pub mod preprocess;
pub mod random;
pub mod record;
pub mod roster;
pub mod runner;
pub mod suite;
pub mod text;
pub mod toolchain;
