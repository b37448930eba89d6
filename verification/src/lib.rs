//! Request handling, progress accounting and stream control for a
//! file-encryption front end.

pub mod outcome;
pub mod paths;
pub mod process;
pub mod progress;
pub mod request;
