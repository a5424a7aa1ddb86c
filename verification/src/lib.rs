//! A single-node task queue. A client submits a command with its
//! environment to a durable store; a daemon polls the store, runs the tasks
//! one at a time as child processes, and records what became of them.
//!
//! What is proved, and where:
//!
//! - `taskdb`: the task records and how one is made from the other; the
//!   store itself, `TaskDB`, and what it makes of every outcome of a
//!   statement.
//! - `rows`: how a record is laid out as the column values of a row, and
//!   that a row read back is the record that was written.
//! - `lifecycle`: the three collections as mathematical maps, what each
//!   change of the store does to them, and what startup does to the tasks
//!   that a crash left working.
//! - `daemon`: the daemon's decisions as a state machine, and what its steps
//!   do to the collections: no task is lost, and one task runs at a time.
//! - `runner`: when a watched child is killed for running too long.
//!
//! What is taken on trust: the calls into SQLite (`sqlite`). The database is
//! on disk and shared with other processes, so nothing is claimed of what a
//! statement finds there: `lifecycle` says what the statements do to a store
//! that nobody else writes to, and the tests run them against SQLite. The
//! clock is read by the caller: every time comes in as text.

pub mod daemon;
pub mod lifecycle;
pub mod rows;
pub mod runner;
pub mod sqlite;
pub mod taskdb;
