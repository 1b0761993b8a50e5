//! Keeps a local mirror of a remote repository in step with the remote and
//! works out which files changed since a caller's checkpoint.
//!
//! The repository engine itself stays outside: the library decides which
//! engine operation comes next and what its answers mean, and the caller
//! performs the operations.
pub mod change_set;
pub mod codec;
pub mod mirror;
pub mod progress;
pub mod revision;
pub mod session;
