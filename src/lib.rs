//! Screen-activity recording and summarization core.
//!
//! The session controller, the per-tick decisions of the capture and summary
//! loops, the video-assembly plan and the remote summarization protocol are
//! verified here; the surrounding program performs the I/O they call for.

pub mod session;
pub mod text;
pub mod remote;
pub mod protocol;
pub mod records;
pub mod cycle;
pub mod assembler;
pub mod capture;
pub mod settings;
pub mod daily;
