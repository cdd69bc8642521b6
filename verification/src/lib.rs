//! Session snapshot store: a uniform, path-addressed read interface over a
//! live session directory and over historical commits of a git-compatible
//! object store, together with the reconstruction of typed session metadata
//! from either backing store.

pub mod commit_reader;
pub mod parse;
pub mod reader;
pub mod session;
