//! Turns a free-text prompt into one shell command for a target platform.
//!
//! The library holds the decisions of the tool: how the prompt and the
//! platform are assembled, what the request to the completion service says,
//! how its reply is read, how the progress indicator behaves around
//! cancellation, and what the output step prints, copies and runs.
//! The program around it performs the network call, the clipboard write,
//! the process spawn and the terminal output.

pub mod spinner;
pub mod command;
pub mod request;
pub mod response;
pub mod invocation;
pub mod dispatch;
pub mod outcome;
