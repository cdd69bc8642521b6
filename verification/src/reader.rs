//! The path-addressed read capability over a session's backing store.
//!
//! A reader resolves logical paths such as `session/meta/id` against one
//! backing store. Two backends exist: a live session directory, and one
//! historical commit's tree. Reconstruction is written once against this
//! interface and never learns which backend it is reading.

use vstd::prelude::*;

verus! {

/// Failure of one read: the path is absent, unreadable, or not valid UTF-8
/// text. The backends deliberately do not distinguish these causes at this
/// boundary; the underlying cause is a diagnostic concern, not a semantic
/// one.
#[derive(Debug, Clone, Copy, PartialEq, Eq)]
pub struct ReadError;

/// A capability for path-addressed, read-only access to one session's data.
///
/// `read_to_string` is the single primitive all higher parsing builds on:
/// there is intentionally no typed read, so that the interface stays minimal
/// and backend-agnostic. Neither method carries a contract: what either
/// returns depends on the state of the backing store, which only the caller
/// of the whole reconstruction can know.
pub trait Reader {
    /// True iff a readable value is present at `path`. Absence is reported as
    /// `false`, never as a failure, even where the store is unavailable.
    fn path_exists(&self, path: &str) -> bool;

    /// The UTF-8 decoded content at `path`, or a read error where the path is
    /// absent, unreadable, or not valid text.
    fn read_to_string(&self, path: &str) -> Result<String, ReadError>;
}

} // verus!
