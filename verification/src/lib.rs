//! The execution core of a parallel test runner.
//!
//! The core decides and counts; it starts no process, reads no file and
//! keeps no time of its own. Its parts:
//!
//! - [`dispatcher`]: which unit starts next, and when the run stops
//!   admitting units;
//! - [`unit_machine`]: the life of one unit, from running to exited, with
//!   slow marks, termination, leaks and retries;
//! - [`run_stats`]: the tallies of a run and the outcome they come to;
//! - [`cancel`]: why a run is cancelled, by severity;
//! - [`signal`]: what a signal asks of the run;
//! - [`env_file`]: the environment files that setup scripts write;
//! - [`execution`]: how attempts and setup scripts ended;
//! - [`events`]: what the runner reports;
//! - [`test_list`]: the tests that discovery hands over;
//! - [`list_command`]: the command line that asks for that list;
//! - [`policy`], [`timer`], [`capture`]: the policy of a run, a stopwatch
//!   that can be paused, and the buffer for captured output.

pub mod cancel;
pub mod capture;
pub mod dispatcher;
pub mod env_file;
pub mod events;
pub mod execution;
pub mod list_command;
pub mod policy;
pub mod run_stats;
pub mod signal;
pub mod test_list;
pub mod timer;
pub mod unit_machine;
