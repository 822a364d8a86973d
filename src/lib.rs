//! Scheduling core of an administrative maintenance daemon.
//!
//! A single base tick drives two remote actions (delete expired user data,
//! then transfer funds) and, on a twelve-hour cadence measured from the
//! process's start, the launch of an external transaction scanner.
//! The decisions are verified here; the network, the child process and the
//! environment are handled by the program that links this library.

pub mod clock;
pub mod config;
pub mod remote;
pub mod scanner;
pub mod scheduler;
