//! The core of a service that tells whether a pull request has reached the
//! tracked branches of a package repository.
//!
//! A client opens a session and sends the number of a pull request. The
//! service resolves the pull request to its merge commit, compares that commit
//! against every tracked branch, and answers with a status vector: one byte
//! for each branch, 1 where the commit has reached the branch and 0 where it
//! has not. Then the session closes.
//!
//! This crate holds the rules of that service, none of its input and output:
//!
//! - [`registry`] and [`branch`]: the tracked branches and their positions;
//! - [`numeral`]: reading and writing pull-request numbers;
//! - [`upstream`]: the requests to the upstream service and the meaning of its
//!   answers;
//! - [`outcome`]: the outcomes of comparisons and their status bits;
//! - [`aggregate`]: one request for each branch, and one vector from all reports;
//! - [`session`]: the state machine of a session, one step at a time;
//! - [`transcript`]: whole sessions, and what holds of every one of them;
//! - [`error`]: what can go wrong.
//!
//! Whoever drives a session performs the action of each step (receive a frame,
//! look a commit up, compare it, send frames) and hands the next step what
//! came of it.

pub mod aggregate;
pub mod branch;
pub mod error;
pub mod numeral;
pub mod outcome;
pub mod registry;
pub mod session;
pub mod transcript;
pub mod upstream;
