//! The launch of a bundled backend server behind a desktop window.
//!
//! A launcher starts the backend as a child process, finds out where it
//! serves, waits until it answers, and then sends the host window there; if
//! the backend never becomes ready, the window shows a diagnostic instead.
//! This crate holds the decisions of that lifecycle. It starts no process,
//! opens no connection and reads no clock: its caller does, and reports to
//! the state machines here what has happened.
//!
//! - [`supervisor`]: the launch configuration and the events of the
//!   backend's output;
//! - [`announcement`]: the line by which the backend announces its port;
//! - [`resolver`]: from a fixed port, or from the output, to the endpoint;
//! - [`prober`]: the retry loop that waits for the backend to answer;
//! - [`controller`]: the lifecycle as a whole, up to the one command that
//!   the window is given;
//! - [`window`]: the commands of the window and their scripts;
//! - [`text`]: digits and white space.

pub mod announcement;
pub mod controller;
pub mod prober;
pub mod resolver;
pub mod supervisor;
pub mod text;
pub mod window;
