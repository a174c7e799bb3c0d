//! Terminal-session recording: the decisions behind a typescript recorder.
//!
//! The library holds the parts of a recorder that compute or decide: the
//! choice of transcript path and shell, the raw terminal mode, the order of
//! the setup steps, the child's terminal setup, and the relay that copies
//! bytes between the user's terminal, the shell and the transcript. The
//! program around it performs the system calls that these name.
pub mod config;
pub mod relay;
pub mod mode;
pub mod session;
pub mod child;
